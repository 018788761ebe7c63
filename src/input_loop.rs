use vstd::prelude::*;

use crate::classify::{classify, classify_spec, Diagnostic};
use crate::keys::{quit_byte, sentinel};

verus! {

/// Where the input loop stands.
#[derive(Clone, Copy, Debug, PartialEq, Eq, Structural)]
pub enum LoopState {
    /// Waiting for the next byte.
    Running,
    /// Stopped normally: the sentinel came, or the stream ended.
    Terminated,
    /// Stopped because the stream could not be read.
    Aborted,
}

/// What one read of the input stream gave.
#[derive(Clone, Copy, Debug, PartialEq, Eq, Structural)]
pub enum ReadEvent {
    /// A byte arrived.
    Byte(u8),
    /// The stream ended.
    End,
    /// The read failed.
    Failed,
}

/// What the loop does with one read: the diagnostic to print, if any, and where it goes next.
#[derive(Clone, Copy, Debug, PartialEq, Eq, Structural)]
pub struct Step {
    pub report: Option<Diagnostic>,
    pub next: LoopState,
}

/// The loop's answer to one read while it is running.
pub open spec fn step_spec(e: ReadEvent) -> Step {
    match e {
        ReadEvent::Byte(b) => Step {
            report: Some(classify_spec(b)),
            next: if b == sentinel() { LoopState::Terminated } else { LoopState::Running },
        },
        ReadEvent::End => Step { report: None, next: LoopState::Terminated },
        ReadEvent::Failed => Step { report: None, next: LoopState::Aborted },
    }
}

/// Decides what the running loop does with the result of one read.
pub fn step(e: ReadEvent) -> (r: Step)
    ensures
        r == step_spec(e),
{
    match e {
        ReadEvent::Byte(b) => {
            let next = if b == quit_byte() {
                LoopState::Terminated
            } else {
                LoopState::Running
            };
            Step { report: Some(classify(b)), next }
        },
        ReadEvent::End => Step { report: None, next: LoopState::Terminated },
        ReadEvent::Failed => Step { report: None, next: LoopState::Aborted },
    }
}

/// The diagnostics of a step, as a sequence of zero or one.
pub open spec fn reports_of(s: Step) -> Seq<Diagnostic> {
    match s.report {
        Some(d) => seq![d],
        None => Seq::empty(),
    }
}

/// What a run of the loop did: the diagnostics it printed in order, how many
/// reads it made, and the state it stopped in.
pub struct RunModel {
    pub reports: Seq<Diagnostic>,
    pub consumed: nat,
    pub last: LoopState,
}

/// The run of the loop on the reads `ev`, from read `i` on. Running out of
/// reads counts as the end of the stream.
pub open spec fn run_from(ev: Seq<ReadEvent>, i: nat) -> RunModel
    decreases ev.len() - i,
{
    if i >= ev.len() {
        RunModel { reports: Seq::empty(), consumed: i, last: LoopState::Terminated }
    } else {
        let s = step_spec(ev[i as int]);
        if s.next == LoopState::Running {
            let rest = run_from(ev, i + 1);
            RunModel { reports: reports_of(s) + rest.reports, consumed: rest.consumed, last: rest.last }
        } else {
            RunModel { reports: reports_of(s), consumed: i + 1, last: s.next }
        }
    }
}

/// The run of the loop on the reads `ev`.
pub open spec fn run_spec(ev: Seq<ReadEvent>) -> RunModel {
    run_from(ev, 0)
}

/// The record of a run of the loop.
pub struct Transcript {
    pub reports: Vec<Diagnostic>,
    pub consumed: usize,
    pub last: LoopState,
}

impl View for Transcript {
    type V = RunModel;

    open spec fn view(&self) -> RunModel {
        RunModel { reports: self.reports@, consumed: self.consumed as nat, last: self.last }
    }
}

/// Runs the loop on a given sequence of reads, stopping at the first read that
/// ends it; the reads after that one are never looked at.
pub fn run(ev: &Vec<ReadEvent>) -> (r: Transcript)
    ensures
        r@ == run_spec(ev@),
{
    let mut reports: Vec<Diagnostic> = Vec::new();
    let mut i: usize = 0;
    while i < ev.len()
        invariant
            i <= ev.len(),
            run_spec(ev@) == (RunModel {
                reports: reports@ + run_from(ev@, i as nat).reports,
                consumed: run_from(ev@, i as nat).consumed,
                last: run_from(ev@, i as nat).last,
            }),
        decreases ev.len() - i,
    {
        let s = step(ev[i]);
        let ghost before = reports@;
        match s.report {
            Some(d) => reports.push(d),
            None => {},
        }
        assert(reports@ =~= before + reports_of(s));
        if s.next != LoopState::Running {
            return Transcript { reports, consumed: i + 1, last: s.next };
        }
        assert(before + run_from(ev@, i as nat).reports =~= reports@ + run_from(ev@, (i + 1) as nat).reports);
        i = i + 1;
    }
    assert(reports@ =~= reports@ + run_from(ev@, i as nat).reports);
    Transcript { reports, consumed: i, last: LoopState::Terminated }
}

/// The reads that deliver the bytes `bs`, one by one.
pub open spec fn byte_reads(bs: Seq<u8>) -> Seq<ReadEvent> {
    bs.map_values(|b: u8| ReadEvent::Byte(b))
}

proof fn lemma_run_to_sentinel_from(bs: Seq<u8>, rest: Seq<ReadEvent>, i: nat)
    requires
        i <= bs.len(),
        forall|j: int| 0 <= j < bs.len() ==> bs[j] != sentinel(),
    ensures
        ({
            let all = bs.push(sentinel());
            run_from(byte_reads(all) + rest, i) == (RunModel {
                reports: all.subrange(i as int, all.len() as int).map_values(|b: u8| classify_spec(b)),
                consumed: all.len(),
                last: LoopState::Terminated,
            })
        }),
    decreases bs.len() - i,
{
    let all = bs.push(sentinel());
    let ev = byte_reads(all) + rest;
    let f = |b: u8| classify_spec(b);
    assert(ev[i as int] == ReadEvent::Byte(all[i as int]));
    if i < bs.len() {
        lemma_run_to_sentinel_from(bs, rest, i + 1);
        assert(all.subrange(i as int, all.len() as int).map_values(f) =~= seq![classify_spec(all[i as int])]
            + all.subrange(i + 1 as int, all.len() as int).map_values(f));
    } else {
        assert(all.subrange(i as int, all.len() as int).map_values(f) =~= seq![classify_spec(sentinel())]);
    }
}

/// Fed bytes that are not the sentinel and then the sentinel, the loop prints
/// one diagnostic for each of those bytes, the sentinel included, in order, and
/// stops right after the sentinel: whatever would come next is never read.
pub proof fn lemma_stops_at_sentinel(bs: Seq<u8>, rest: Seq<ReadEvent>)
    requires
        forall|j: int| 0 <= j < bs.len() ==> bs[j] != sentinel(),
    ensures
        run_spec(byte_reads(bs.push(sentinel())) + rest) == (RunModel {
            reports: bs.push(sentinel()).map_values(|b: u8| classify_spec(b)),
            consumed: bs.len() + 1,
            last: LoopState::Terminated,
        }),
{
    lemma_run_to_sentinel_from(bs, rest, 0);
    let all = bs.push(sentinel());
    assert(all.subrange(0, all.len() as int) =~= all);
}

/// A stream that ends before any byte arrives stops the loop normally, with no
/// diagnostic printed.
pub proof fn lemma_empty_stream(ev: Seq<ReadEvent>)
    requires
        ev.len() == 0 || ev[0] == ReadEvent::End,
    ensures
        run_spec(ev).reports.len() == 0,
        run_spec(ev).last == LoopState::Terminated,
{
}

} // verus!

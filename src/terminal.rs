use vstd::prelude::*;

use crate::input_loop::{run, run_spec, RunModel, Transcript};

verus! {

/// Why raw mode could not be taken.
#[derive(Clone, Copy, Debug, PartialEq, Eq, Structural)]
pub enum ModeError {
    /// The standard streams are not an interactive terminal.
    NotATerminal,
    /// Raw mode is already held and has not been released.
    AlreadyRaw,
}

/// The terminal mode controller as a value: whether raw mode is held, and how
/// many times it was acquired and released.
pub struct ControllerModel {
    pub raw: bool,
    pub acquires: nat,
    pub releases: nat,
}

impl ControllerModel {
    /// Raw mode is held exactly when there is one more acquisition than releases.
    pub open spec fn wf(self) -> bool {
        if self.raw {
            self.acquires == self.releases + 1
        } else {
            self.acquires == self.releases
        }
    }
}

/// The controller after an attempt to acquire raw mode, and whether it succeeded.
pub open spec fn acquire_spec(m: ControllerModel, is_terminal: bool) -> (ControllerModel, Result<(), ModeError>) {
    if !is_terminal {
        (m, Err(ModeError::NotATerminal))
    } else if m.raw {
        (m, Err(ModeError::AlreadyRaw))
    } else {
        (ControllerModel { raw: true, acquires: m.acquires + 1, releases: m.releases }, Ok(()))
    }
}

/// The controller after raw mode is released.
pub open spec fn release_spec(m: ControllerModel) -> ControllerModel {
    ControllerModel { raw: false, acquires: m.acquires, releases: m.releases + 1 }
}

/// Proof of holding raw mode. It cannot be copied, so it is given back once.
pub struct RawModeHandle {
    held: bool,
}

/// Keeps the terminal's mode: raw mode is taken at one point and given back
/// exactly once for each time it was taken.
pub struct ModeController {
    raw: bool,
    acquires: u64,
    releases: u64,
}

impl View for ModeController {
    type V = ControllerModel;

    closed spec fn view(&self) -> ControllerModel {
        ControllerModel { raw: self.raw, acquires: self.acquires as nat, releases: self.releases as nat }
    }
}

impl ModeController {
    /// A controller for a terminal in cooked mode.
    pub fn new() -> (r: ModeController)
        ensures
            r@ == (ControllerModel { raw: false, acquires: 0, releases: 0 }),
    {
        ModeController { raw: false, acquires: 0, releases: 0 }
    }

    /// Whether raw mode is held.
    pub fn is_raw(&self) -> (r: bool)
        ensures
            r == self@.raw,
    {
        self.raw
    }

    /// How many times raw mode was acquired.
    pub fn acquires(&self) -> (r: u64)
        ensures
            r == self@.acquires,
    {
        self.acquires
    }

    /// How many times raw mode was released.
    pub fn releases(&self) -> (r: u64)
        ensures
            r == self@.releases,
    {
        self.releases
    }

    /// Takes raw mode. Fails, leaving everything as it was, when the streams
    /// are not a terminal or when raw mode is already held.
    pub fn acquire(&mut self, is_terminal: bool) -> (r: Result<RawModeHandle, ModeError>)
        requires
            old(self)@.wf(),
            old(self)@.acquires < u64::MAX,
        ensures
            final(self)@ == acquire_spec(old(self)@, is_terminal).0,
            final(self)@.wf(),
            match r {
                Ok(_) => acquire_spec(old(self)@, is_terminal).1 == Ok::<(), ModeError>(()),
                Err(e) => acquire_spec(old(self)@, is_terminal).1 == Err::<(), ModeError>(e),
            },
    {
        if !is_terminal {
            Err(ModeError::NotATerminal)
        } else if self.raw {
            Err(ModeError::AlreadyRaw)
        } else {
            self.raw = true;
            self.acquires = self.acquires + 1;
            Ok(RawModeHandle { held: true })
        }
    }

    /// Gives raw mode back, consuming the handle that proves it is held.
    pub fn release(&mut self, handle: RawModeHandle)
        requires
            old(self)@.wf(),
            old(self)@.raw,
        ensures
            final(self)@ == release_spec(old(self)@),
            final(self)@.wf(),
    {
        let RawModeHandle { held: _ } = handle;
        self.raw = false;
        self.releases = self.releases + 1;
    }

    /// Takes raw mode, runs the input loop on the reads `ev`, and gives raw
    /// mode back, whichever way the loop stopped. When raw mode cannot be
    /// taken, nothing is read and the error is returned.
    pub fn run_session(&mut self, is_terminal: bool, ev: &Vec<crate::input_loop::ReadEvent>) -> (r: Result<Transcript, ModeError>)
        requires
            old(self)@.wf(),
            old(self)@.acquires < u64::MAX,
        ensures
            final(self)@ == session_spec(old(self)@, is_terminal, ev@).0,
            final(self)@.wf(),
            match r {
                Ok(t) => session_spec(old(self)@, is_terminal, ev@).1 == Ok::<RunModel, ModeError>(t@),
                Err(e) => session_spec(old(self)@, is_terminal, ev@).1 == Err::<RunModel, ModeError>(e),
            },
    {
        match self.acquire(is_terminal) {
            Ok(handle) => {
                let t = run(ev);
                self.release(handle);
                Ok(t)
            },
            Err(e) => Err(e),
        }
    }
}

/// A session: acquire raw mode, run the loop on `ev`, release raw mode.
pub open spec fn session_spec(m: ControllerModel, is_terminal: bool, ev: Seq<crate::input_loop::ReadEvent>) -> (ControllerModel, Result<RunModel, ModeError>) {
    let (a, res) = acquire_spec(m, is_terminal);
    match res {
        Ok(_) => (release_spec(a), Ok(run_spec(ev))),
        Err(e) => (a, Err(e)),
    }
}

/// Whatever the loop reads, and whichever way it stops (the sentinel, the end
/// of the stream, a failed read), a session on a fresh controller for a
/// terminal acquires raw mode once and releases it once, and leaves the
/// terminal in cooked mode.
pub proof fn lemma_session_releases_once(ev: Seq<crate::input_loop::ReadEvent>)
    ensures
        ({
            let (m, res) = session_spec(ControllerModel { raw: false, acquires: 0, releases: 0 }, true, ev);
            &&& res == Ok::<RunModel, ModeError>(run_spec(ev))
            &&& m == (ControllerModel { raw: false, acquires: 1, releases: 1 })
        }),
{
}

/// Raw mode can be taken again once it has been given back: acquiring and
/// releasing twice in a row succeeds both times and ends in cooked mode with
/// two acquisitions and two releases more.
pub proof fn lemma_reacquire_after_release(m: ControllerModel)
    requires
        m.wf(),
        !m.raw,
    ensures
        ({
            let (a1, r1) = acquire_spec(m, true);
            let b1 = release_spec(a1);
            let (a2, r2) = acquire_spec(b1, true);
            let b2 = release_spec(a2);
            &&& r1 == Ok::<(), ModeError>(())
            &&& r2 == Ok::<(), ModeError>(())
            &&& b2 == (ControllerModel { raw: false, acquires: m.acquires + 2, releases: m.releases + 2 })
        }),
{
}

/// Acquiring raw mode while it is held fails with `AlreadyRaw` and changes nothing.
pub proof fn lemma_double_acquire_fails(m: ControllerModel)
    requires
        m.wf(),
        !m.raw,
    ensures
        ({
            let (a1, r1) = acquire_spec(m, true);
            let (a2, r2) = acquire_spec(a1, true);
            &&& r1 == Ok::<(), ModeError>(())
            &&& r2 == Err::<(), ModeError>(ModeError::AlreadyRaw)
            &&& a2 == a1
            &&& a2.raw
        }),
{
}

} // verus!

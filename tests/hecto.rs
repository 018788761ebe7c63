use hecto::classify::{classify, diagnostic_line, is_control_byte, push_decimal, Diagnostic};
use hecto::error::{die, HectoError};
use hecto::input_loop::{run, step, LoopState, ReadEvent};
use hecto::keys::{quit_byte, to_ctrl_byte, QUIT_KEY};
use hecto::terminal::{ModeController, ModeError};

fn text(d: Diagnostic) -> String {
    diagnostic_line(d).into_iter().collect()
}

#[test]
fn ctrl_byte_of_lower_c_is_three() {
    assert_eq!(to_ctrl_byte('c'), 0x03);
}

#[test]
fn ctrl_byte_of_lower_a_is_one() {
    assert_eq!(to_ctrl_byte('a'), 0x01);
}

#[test]
fn ctrl_byte_ignores_case() {
    assert_eq!(to_ctrl_byte('A'), 0x01);
    for c in 'a'..='z' {
        assert_eq!(to_ctrl_byte(c), to_ctrl_byte(c.to_ascii_uppercase()));
    }
}

#[test]
fn ctrl_byte_is_low_five_bits_for_letters() {
    for c in 'a'..='z' {
        assert_eq!(to_ctrl_byte(c), (c as u8) & 0x1F);
        assert_eq!(to_ctrl_byte(c) as u32, c as u32 - 0x60);
    }
}

#[test]
fn ctrl_byte_of_other_characters() {
    assert_eq!(to_ctrl_byte('@'), 0x00);
    assert_eq!(to_ctrl_byte('['), 0x1B);
    assert_eq!(to_ctrl_byte('\u{3A3}'), 0xA3 & 0x1F);
}

#[test]
fn quit_byte_is_ctrl_c() {
    assert_eq!(QUIT_KEY, 'c');
    assert_eq!(quit_byte(), 0x03);
}

#[test]
fn control_bytes_are_below_space_and_delete() {
    for b in 0u8..=255 {
        let expected = b < 0x20 || b == 0x7F;
        assert_eq!(is_control_byte(b), expected, "byte {}", b);
        if expected {
            assert_eq!(classify(b), Diagnostic::Code(b));
        } else {
            assert_eq!(classify(b), Diagnostic::CodeAndChar(b, b as char));
        }
    }
}

#[test]
fn classification_edges() {
    assert_eq!(classify(0x00), Diagnostic::Code(0));
    assert_eq!(classify(0x1F), Diagnostic::Code(0x1F));
    assert_eq!(classify(0x20), Diagnostic::CodeAndChar(0x20, ' '));
    assert_eq!(classify(0x7E), Diagnostic::CodeAndChar(0x7E, '~'));
    assert_eq!(classify(0x7F), Diagnostic::Code(0x7F));
    assert_eq!(classify(0x80), Diagnostic::CodeAndChar(0x80, '\u{80}'));
    assert_eq!(classify(0xFF), Diagnostic::CodeAndChar(0xFF, '\u{FF}'));
}

#[test]
fn diagnostic_lines() {
    assert_eq!(text(classify(b'a')), "97 (a)\r\n");
    assert_eq!(text(classify(3)), "3 \r\n");
    assert_eq!(text(classify(0)), "0 \r\n");
    assert_eq!(text(classify(127)), "127 \r\n");
    assert_eq!(text(classify(b' ')), "32 ( )\r\n");
    assert_eq!(text(classify(0xFF)), "255 (\u{FF})\r\n");
}

#[test]
fn decimal_notation() {
    for n in 0u8..=255 {
        let mut out = vec!['x'];
        push_decimal(&mut out, n);
        let s: String = out.into_iter().collect();
        assert_eq!(s, format!("x{}", n));
    }
}

#[test]
fn step_on_each_read() {
    let s = step(ReadEvent::Byte(0x61));
    assert_eq!(s.report, Some(Diagnostic::CodeAndChar(0x61, 'a')));
    assert_eq!(s.next, LoopState::Running);
    let s = step(ReadEvent::Byte(0x03));
    assert_eq!(s.report, Some(Diagnostic::Code(0x03)));
    assert_eq!(s.next, LoopState::Terminated);
    let s = step(ReadEvent::Byte(0x04));
    assert_eq!(s.next, LoopState::Running);
    let s = step(ReadEvent::End);
    assert_eq!(s.report, None);
    assert_eq!(s.next, LoopState::Terminated);
    let s = step(ReadEvent::Failed);
    assert_eq!(s.report, None);
    assert_eq!(s.next, LoopState::Aborted);
}

#[test]
fn run_stops_after_ctrl_c() {
    let ev = vec![
        ReadEvent::Byte(0x61),
        ReadEvent::Byte(0x62),
        ReadEvent::Byte(0x03),
        ReadEvent::Byte(0x64),
        ReadEvent::Failed,
    ];
    let t = run(&ev);
    assert_eq!(
        t.reports,
        vec![
            Diagnostic::CodeAndChar(0x61, 'a'),
            Diagnostic::CodeAndChar(0x62, 'b'),
            Diagnostic::Code(0x03),
        ]
    );
    assert_eq!(t.consumed, 3);
    assert_eq!(t.last, LoopState::Terminated);
}

#[test]
fn run_on_empty_stream() {
    let t = run(&vec![]);
    assert!(t.reports.is_empty());
    assert_eq!(t.consumed, 0);
    assert_eq!(t.last, LoopState::Terminated);
    let t = run(&vec![ReadEvent::End, ReadEvent::Byte(0x61)]);
    assert!(t.reports.is_empty());
    assert_eq!(t.consumed, 1);
    assert_eq!(t.last, LoopState::Terminated);
}

#[test]
fn run_aborts_on_read_error() {
    let t = run(&vec![ReadEvent::Byte(0x1B), ReadEvent::Failed, ReadEvent::Byte(0x61)]);
    assert_eq!(t.reports, vec![Diagnostic::Code(0x1B)]);
    assert_eq!(t.consumed, 2);
    assert_eq!(t.last, LoopState::Aborted);
}

#[test]
fn run_until_stream_end() {
    let t = run(&vec![ReadEvent::Byte(0x7F), ReadEvent::Byte(0x41)]);
    assert_eq!(t.reports, vec![Diagnostic::Code(0x7F), Diagnostic::CodeAndChar(0x41, 'A')]);
    assert_eq!(t.consumed, 2);
    assert_eq!(t.last, LoopState::Terminated);
}

#[test]
fn session_releases_once_on_every_exit() {
    let scripts = vec![
        vec![ReadEvent::Byte(0x61), ReadEvent::Byte(0x03)],
        vec![ReadEvent::Byte(0x61), ReadEvent::End],
        vec![],
        vec![ReadEvent::Byte(0x61), ReadEvent::Failed],
    ];
    let lasts = [LoopState::Terminated, LoopState::Terminated, LoopState::Terminated, LoopState::Aborted];
    for (ev, last) in scripts.iter().zip(lasts.iter()) {
        let mut m = ModeController::new();
        let t = m.run_session(true, ev).unwrap();
        assert_eq!(t.last, *last);
        assert_eq!(m.acquires(), 1);
        assert_eq!(m.releases(), 1);
        assert!(!m.is_raw());
    }
}

#[test]
fn session_refuses_a_non_terminal() {
    let mut m = ModeController::new();
    let r = m.run_session(false, &vec![ReadEvent::Byte(0x61)]);
    assert_eq!(r.err(), Some(ModeError::NotATerminal));
    assert_eq!(m.acquires(), 0);
    assert_eq!(m.releases(), 0);
    assert!(!m.is_raw());
}

#[test]
fn acquire_and_release_twice() {
    let mut m = ModeController::new();
    let h = m.acquire(true).unwrap();
    assert!(m.is_raw());
    m.release(h);
    assert!(!m.is_raw());
    let h = m.acquire(true).unwrap();
    m.release(h);
    assert_eq!(m.acquires(), 2);
    assert_eq!(m.releases(), 2);
    assert!(!m.is_raw());
}

#[test]
fn double_acquire_is_refused() {
    let mut m = ModeController::new();
    let h = m.acquire(true).unwrap();
    assert_eq!(m.acquire(true).err(), Some(ModeError::AlreadyRaw));
    assert_eq!(m.acquires(), 1);
    assert!(m.is_raw());
    m.release(h);
    assert_eq!(m.releases(), 1);
    assert_eq!(m.run_session(true, &vec![]).map(|t| t.consumed).ok(), Some(0));
}

#[test]
fn die_keeps_the_read_error() {
    let e = std::io::Error::new(std::io::ErrorKind::UnexpectedEof, "gone");
    match die(e) {
        HectoError::StreamRead(inner) => {
            assert_eq!(inner.kind(), std::io::ErrorKind::UnexpectedEof);
            assert_eq!(inner.to_string(), "gone");
        }
        other => panic!("unexpected {:?}", other),
    }
}

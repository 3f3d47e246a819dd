use serial_monitor::decode::Piece;
use serial_monitor::idle::IdleTracker;
use serial_monitor::monitor::{contains_char, Decision, Monitor, ReadEvent};
use serial_monitor::startup::exit_code;

fn written(pieces: &[Piece]) -> String {
    let mut text = String::new();
    for piece in pieces {
        if let Piece::Char(c) = piece {
            text.push(*c);
        }
    }
    text
}

fn reports(pieces: &[Piece]) -> usize {
    pieces.iter().filter(|piece| matches!(piece, Piece::Malformed(_))).count()
}

#[test]
fn a_new_monitor_has_received_nothing() {
    let monitor = Monitor::new(Some(500));
    assert_eq!(monitor.idle_timeout(), Some(500));
    assert_eq!(monitor.tracker(), IdleTracker { received_any: false, last_received: 0 });
    assert!(monitor.held().is_empty());
    assert_eq!(Monitor::new(None).idle_timeout(), None);
}

#[test]
fn one_character_then_silence_ends_the_session_after_the_timeout() {
    let mut monitor = Monitor::new(Some(500));
    let mut output = String::new();
    let first = monitor.step(&ReadEvent::Data(b"A".to_vec()), 0);
    output.push_str(&written(&first.output));
    assert_eq!(first.decision, Decision::Continue);
    let mut stopped_at = None;
    for now in 1..=600u64 {
        let step = monitor.step(&ReadEvent::TimedOut, now);
        output.push_str(&written(&step.output));
        assert!(!step.report_failure);
        if step.decision == Decision::Stop {
            stopped_at = Some(now);
            assert_eq!(exit_code(step.decision), Some(0));
            break;
        }
    }
    assert_eq!(stopped_at, Some(501));
    assert_eq!(output, "A");
}

#[test]
fn hello_in_five_chunks_of_one_byte_comes_out_whole() {
    let mut monitor = Monitor::new(None);
    let mut output = String::new();
    for (now, byte) in b"hello".iter().enumerate() {
        let step = monitor.step(&ReadEvent::Data(vec![*byte]), now as u64);
        assert_eq!(step.decision, Decision::Continue);
        assert!(!step.report_failure);
        assert_eq!(step.output.len(), 1);
        output.push_str(&written(&step.output));
    }
    assert_eq!(output, "hello");
    assert!(monitor.held().is_empty());
}

#[test]
fn a_silent_line_never_ends_the_session() {
    for limit in [1u64, 10, 500, u64::MAX] {
        let mut monitor = Monitor::new(Some(limit));
        for now in [0u64, 1, 2, 499, 500, 501, 1_000_000, u64::MAX] {
            let step = monitor.step(&ReadEvent::TimedOut, now);
            assert_eq!(step.decision, Decision::Continue);
            assert!(step.output.is_empty());
            let step = monitor.step(&ReadEvent::Data(Vec::new()), now);
            assert_eq!(step.decision, Decision::Continue);
            let step = monitor.step(&ReadEvent::Failed, now);
            assert_eq!(step.decision, Decision::Continue);
        }
        assert!(!monitor.tracker().received_any);
    }
}

#[test]
fn without_a_timeout_the_session_never_ends_by_itself() {
    let mut monitor = Monitor::new(None);
    assert_eq!(monitor.step(&ReadEvent::Data(b"x".to_vec()), 0).decision, Decision::Continue);
    for now in [1u64, 1000, 1_000_000_000, u64::MAX] {
        assert_eq!(monitor.step(&ReadEvent::TimedOut, now).decision, Decision::Continue);
        assert_eq!(monitor.step(&ReadEvent::Failed, now).decision, Decision::Continue);
    }
    assert_eq!(monitor.idle_timeout(), None);
}

#[test]
fn every_character_pushes_the_timeout_back() {
    let mut monitor = Monitor::new(Some(100));
    assert_eq!(monitor.step(&ReadEvent::Data(b"a".to_vec()), 0).decision, Decision::Continue);
    assert_eq!(monitor.step(&ReadEvent::TimedOut, 100).decision, Decision::Continue);
    assert_eq!(monitor.step(&ReadEvent::Data(b"b".to_vec()), 150).decision, Decision::Continue);
    assert_eq!(monitor.tracker(), IdleTracker { received_any: true, last_received: 150 });
    assert_eq!(monitor.step(&ReadEvent::TimedOut, 250).decision, Decision::Continue);
    assert_eq!(monitor.step(&ReadEvent::TimedOut, 251).decision, Decision::Stop);
}

#[test]
fn text_that_arrives_late_keeps_the_session_alive() {
    let mut monitor = Monitor::new(Some(100));
    monitor.step(&ReadEvent::Data(b"a".to_vec()), 0);
    let step = monitor.step(&ReadEvent::Data(b"b".to_vec()), 5000);
    assert_eq!(step.decision, Decision::Continue);
    assert_eq!(step.output, vec![Piece::Char('b')]);
}

#[test]
fn the_start_of_a_character_does_not_count_as_received() {
    let mut monitor = Monitor::new(Some(10));
    let step = monitor.step(&ReadEvent::Data(vec![0xe2, 0x82]), 0);
    assert!(step.output.is_empty());
    assert_eq!(step.decision, Decision::Continue);
    assert!(!monitor.tracker().received_any);
    assert_eq!(monitor.held(), &[0xe2, 0x82]);
    assert_eq!(monitor.step(&ReadEvent::TimedOut, 1000).decision, Decision::Continue);
    let step = monitor.step(&ReadEvent::Data(vec![0xac]), 2000);
    assert_eq!(step.output, vec![Piece::Char('\u{20ac}')]);
    assert_eq!(monitor.tracker(), IdleTracker { received_any: true, last_received: 2000 });
    assert_eq!(monitor.step(&ReadEvent::TimedOut, 2010).decision, Decision::Continue);
    assert_eq!(monitor.step(&ReadEvent::TimedOut, 2011).decision, Decision::Stop);
}

#[test]
fn malformed_bytes_alone_do_not_count_as_received() {
    let mut monitor = Monitor::new(Some(10));
    let step = monitor.step(&ReadEvent::Data(vec![0xff]), 0);
    assert_eq!(step.output, vec![Piece::Malformed(vec![0xff])]);
    assert!(!monitor.tracker().received_any);
    assert_eq!(monitor.step(&ReadEvent::TimedOut, 1000).decision, Decision::Continue);
}

#[test]
fn one_invalid_sequence_gives_one_report_and_the_loop_goes_on() {
    let mut monitor = Monitor::new(Some(500));
    let step = monitor.step(&ReadEvent::Data(vec![b'o', b'n', 0xc3, 0x28, b'o', b'n']), 10);
    assert_eq!(step.decision, Decision::Continue);
    assert!(!step.report_failure);
    assert_eq!(reports(&step.output), 1);
    assert_eq!(written(&step.output), "on(on");
    assert_eq!(step.output[2], Piece::Malformed(vec![0xc3]));
    let step = monitor.step(&ReadEvent::Data(b" and on".to_vec()), 20);
    assert_eq!(step.decision, Decision::Continue);
    assert_eq!(reports(&step.output), 0);
    assert_eq!(written(&step.output), " and on");
}

#[test]
fn a_failed_read_is_reported_and_the_loop_goes_on() {
    let mut monitor = Monitor::new(Some(500));
    let step = monitor.step(&ReadEvent::Failed, 3);
    assert!(step.report_failure);
    assert!(step.output.is_empty());
    assert_eq!(step.decision, Decision::Continue);
    let step = monitor.step(&ReadEvent::Data(b"ok".to_vec()), 4);
    assert!(!step.report_failure);
    assert_eq!(written(&step.output), "ok");
}

#[test]
fn a_failed_read_keeps_what_was_held_back() {
    let mut monitor = Monitor::new(None);
    monitor.step(&ReadEvent::Data(vec![0xc3]), 0);
    monitor.step(&ReadEvent::Failed, 1);
    monitor.step(&ReadEvent::TimedOut, 2);
    assert_eq!(monitor.held(), &[0xc3]);
    let step = monitor.step(&ReadEvent::Data(vec![0xa9]), 3);
    assert_eq!(step.output, vec![Piece::Char('\u{e9}')]);
}

#[test]
fn a_failed_read_after_the_timeout_still_ends_the_session() {
    let mut monitor = Monitor::new(Some(5));
    monitor.step(&ReadEvent::Data(b"a".to_vec()), 0);
    let step = monitor.step(&ReadEvent::Failed, 6);
    assert!(step.report_failure);
    assert_eq!(step.decision, Decision::Stop);
}

#[test]
fn a_read_that_timed_out_is_nothing_to_report() {
    let mut monitor = Monitor::new(Some(500));
    let step = monitor.step(&ReadEvent::TimedOut, 1);
    assert!(!step.report_failure);
    assert!(step.output.is_empty());
    assert_eq!(step.decision, Decision::Continue);
}

#[test]
fn a_timeout_of_zero_ends_the_session_at_the_next_silent_turn() {
    let mut monitor = Monitor::new(Some(0));
    assert_eq!(monitor.step(&ReadEvent::Data(b"a".to_vec()), 4).decision, Decision::Continue);
    assert_eq!(monitor.step(&ReadEvent::TimedOut, 4).decision, Decision::Continue);
    assert_eq!(monitor.step(&ReadEvent::TimedOut, 5).decision, Decision::Stop);
}

#[test]
fn contains_char_tells_text_from_reports() {
    assert!(!contains_char(&vec![]));
    assert!(!contains_char(&vec![Piece::Malformed(vec![0xff])]));
    assert!(contains_char(&vec![Piece::Char('a')]));
    assert!(contains_char(&vec![Piece::Malformed(vec![0xff]), Piece::Char('a')]));
}

#[test]
fn only_a_stop_exits() {
    assert_eq!(exit_code(Decision::Stop), Some(0));
    assert_eq!(exit_code(Decision::Continue), None);
}

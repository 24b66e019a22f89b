use avr_report::decimal::decimal_line;
use avr_report::report::State;
use avr_report::reporter::{Action, Reporter};

fn wire_of(state: State, outcomes: Vec<bool>) -> Vec<u8> {
    state.run().transcript(&outcomes)
}

fn drain(reporter: &mut Reporter) -> Vec<Vec<u8>> {
    let mut lines = Vec::new();
    loop {
        match reporter.step(true) {
            Action::Write(bytes) => lines.push(bytes),
            Action::Halt => break,
        }
    }
    lines
}

#[test]
fn decimal_line_of_zero() {
    assert_eq!(decimal_line(0), b"0\r\n".to_vec());
}

#[test]
fn decimal_line_of_ten() {
    assert_eq!(decimal_line(10), b"10\r\n".to_vec());
}

#[test]
fn decimal_line_of_largest_counter() {
    assert_eq!(decimal_line(u32::MAX), b"4294967295\r\n".to_vec());
}

#[test]
fn initial_state_reports_four_zero_lines() {
    assert_eq!(wire_of(State::new(), vec![]), b"0\r\n0\r\n0\r\n0\r\n".to_vec());
}

#[test]
fn zero_fourth_counter_gives_no_fifth_line() {
    let mut reporter = State::with_counters(7, 123, 4000, 0).run();
    let lines = drain(&mut reporter);
    assert_eq!(
        lines,
        vec![b"7\r\n".to_vec(), b"123\r\n".to_vec(), b"4000\r\n".to_vec(), b"0\r\n".to_vec()]
    );
}

#[test]
fn nonzero_fourth_counter_adds_one_marker_last() {
    let mut reporter = State::with_counters(5, 10, 0, 1).run();
    let lines = drain(&mut reporter);
    assert_eq!(lines.len(), 5);
    assert_eq!(lines[4], b"BUG\r\n".to_vec());
    assert_eq!(lines.iter().filter(|l| l.as_slice() == b"BUG\r\n").count(), 1);
}

#[test]
fn counters_five_ten_zero_one() {
    assert_eq!(
        wire_of(State::with_counters(5, 10, 0, 1), vec![]),
        b"5\r\n10\r\n0\r\n1\r\nBUG\r\n".to_vec()
    );
}

#[test]
fn nothing_follows_the_last_line() {
    let mut reporter = State::with_counters(5, 10, 0, 1).run();
    let lines = drain(&mut reporter);
    assert_eq!(lines.len(), 5);
    for _ in 0..100 {
        assert!(matches!(reporter.step(true), Action::Halt));
        assert!(matches!(reporter.step(false), Action::Halt));
    }
}

#[test]
fn same_counters_same_bytes_every_run() {
    let first = wire_of(State::new(), vec![]);
    for _ in 0..3 {
        assert_eq!(wire_of(State::new(), vec![]), first);
    }
    let with_marker = wire_of(State::with_counters(5, 10, 0, 1), vec![true, false]);
    assert_eq!(wire_of(State::with_counters(5, 10, 0, 1), vec![true, false]), with_marker);
}

#[test]
fn third_write_failure_drops_only_third_line() {
    assert_eq!(
        wire_of(State::with_counters(5, 10, 7, 0), vec![true, true, false]),
        b"5\r\n10\r\n0\r\n".to_vec()
    );
}

#[test]
fn third_write_failure_keeps_marker() {
    assert_eq!(
        wire_of(State::with_counters(5, 10, 0, 1), vec![true, true, false, true, true]),
        b"5\r\n10\r\n1\r\nBUG\r\n".to_vec()
    );
}

#[test]
fn failed_write_does_not_change_the_sequence() {
    let mut reporter = State::with_counters(1, 2, 3, 4).run();
    let mut lines = Vec::new();
    loop {
        match reporter.step(false) {
            Action::Write(bytes) => lines.push(bytes),
            Action::Halt => break,
        }
    }
    let mut again = State::with_counters(1, 2, 3, 4).run();
    assert_eq!(lines, drain(&mut again));
}

#[test]
fn every_write_failing_leaves_the_wire_silent() {
    assert_eq!(wire_of(State::with_counters(5, 10, 0, 1), vec![false; 5]), Vec::<u8>::new());
}

#[test]
fn reporter_from_given_lines() {
    let mut reporter = Reporter::new(vec![b"a\r\n".to_vec(), b"b\r\n".to_vec()]);
    assert!(matches!(reporter.step(true), Action::Write(ref b) if b.as_slice() == b"a\r\n"));
    assert_eq!(reporter.transcript(&vec![]), b"b\r\n".to_vec());
}

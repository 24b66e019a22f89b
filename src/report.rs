//! The counters and the lines that report them.

use vstd::prelude::*;
use crate::decimal::{decimal_line, line_of, number_line, CR, LF};
use crate::reporter::Reporter;

verus! {

/// Text of the diagnostic marker, `BUG`.
pub open spec fn bug_text() -> Seq<u8> {
    seq![66u8, 85u8, 71u8]
}

/// The diagnostic line, `BUG\r\n`.
pub open spec fn bug_line() -> Seq<u8> {
    line_of(bug_text())
}

/// The lines written for counters `a`, `b`, `c`, `d`, in order: one decimal
/// line per counter, then the diagnostic line when `d` is non-zero.
pub open spec fn report_lines(a: u32, b: u32, c: u32, d: u32) -> Seq<Seq<u8>> {
    let numbers = seq![
        number_line(a as nat),
        number_line(b as nat),
        number_line(c as nat),
        number_line(d as nat),
    ];
    if d != 0 {
        numbers.push(bug_line())
    } else {
        numbers
    }
}

/// Number of flags in the inert filler block.
pub const PADDING_LEN: usize = 49;

/// The device's reporting state: four counters and an inert filler block that
/// only occupies memory. It is consumed by [`State::run`].
pub struct State {
    a: u32,
    b: u32,
    c: u32,
    d: u32,
    padding: [bool; 49],
}

impl State {
    /// The four counters, in reporting order.
    pub closed spec fn counters(&self) -> (u32, u32, u32, u32) {
        (self.a, self.b, self.c, self.d)
    }

    /// The filler block holds its initial contents: every flag set.
    pub closed spec fn wf(&self) -> bool {
        forall|i: int| 0 <= i < PADDING_LEN ==> #[trigger] self.padding@[i]
    }

    /// The lines that [`State::run`] hands to the writer.
    pub open spec fn lines(&self) -> Seq<Seq<u8>> {
        report_lines(self.counters().0, self.counters().1, self.counters().2, self.counters().3)
    }

    /// The state the device starts with: every counter zero.
    pub fn new() -> (r: State)
        ensures
            r.wf(),
            r.counters() == (0u32, 0u32, 0u32, 0u32),
    {
        State::with_counters(0, 0, 0, 0)
    }

    /// A state holding the given counters.
    pub fn with_counters(a: u32, b: u32, c: u32, d: u32) -> (r: State)
        ensures
            r.wf(),
            r.counters() == (a, b, c, d),
    {
        State { a, b, c, d, padding: [true; 49] }
    }

    /// Consumes the state and yields the reporter that writes its lines, in
    /// order, and then halts.
    pub fn run(self) -> (r: Reporter)
        ensures
            r.wf(),
            r.lines() == self.lines(),
            r.position() == 0,
    {
        let mut lines: Vec<Vec<u8>> = Vec::new();
        lines.push(decimal_line(self.a));
        lines.push(decimal_line(self.b));
        lines.push(decimal_line(self.c));
        lines.push(decimal_line(self.d));
        if self.d != 0 {
            // "BUG\r\n"
            let bug: Vec<u8> = vec![66u8, 85u8, 71u8, CR, LF];
            lines.push(bug);
        }
        let r = Reporter::new(lines);
        proof {
            let expected = self.lines();
            assert(r.lines().len() == expected.len());
            assert forall|i: int| 0 <= i < expected.len() implies r.lines()[i] == expected[i] by {
                if i == 4 {
                    assert(bug_line() =~= seq![66u8, 85u8, 71u8, CR, LF]);
                }
            }
            assert(r.lines() =~= expected);
        }
        r
    }
}

} // verus!

//! Properties of the whole report, stated over the specifications that
//! `State::run` and `Reporter::transcript` are proved against.

use vstd::prelude::*;
use crate::decimal::{decimal_of, is_digit, lemma_decimal_digits, number_line, CR, LF, ZERO_DIGIT};
use crate::report::{bug_line, report_lines, State};
use crate::reporter::{delivered, wire};

verus! {

/// Writing one more line appends that line to the wire, or nothing when its
/// write fails.
pub proof fn lemma_wire_push(lines: Seq<Seq<u8>>, line: Seq<u8>, oks: Seq<bool>)
    ensures
        wire(lines.push(line), oks) == wire(lines, oks) + if delivered(oks, lines.len() as int) {
            line
        } else {
            Seq::empty()
        },
{
    assert(lines.push(line).drop_last() =~= lines);
}

/// The wire depends on the outcomes only through which writes are delivered.
proof fn lemma_wire_same_deliveries(lines: Seq<Seq<u8>>, o1: Seq<bool>, o2: Seq<bool>)
    requires
        forall|j: int| 0 <= j < lines.len() ==> delivered(o1, j) == delivered(o2, j),
    ensures
        wire(lines, o1) == wire(lines, o2),
    decreases lines.len(),
{
    if lines.len() > 0 {
        lemma_wire_same_deliveries(lines.drop_last(), o1, o2);
    }
}

/// A failed write is not fatal to the sequence: when only the write of line
/// `i` fails, the wire carries every other line, in order, exactly as if line
/// `i` had never been in the list.
pub proof fn lemma_failed_write_drops_only_its_line(lines: Seq<Seq<u8>>, oks: Seq<bool>, i: int)
    requires
        0 <= i < lines.len(),
        !delivered(oks, i),
        forall|j: int| 0 <= j < lines.len() && j != i ==> delivered(oks, j),
    ensures
        wire(lines, oks) == wire(lines.remove(i), Seq::empty()),
    decreases lines.len(),
{
    let last = lines.len() - 1;
    let rest = lines.drop_last();
    if i == last {
        lemma_wire_same_deliveries(rest, oks, Seq::empty());
        assert(rest =~= lines.remove(i));
        assert(wire(lines, oks) =~= wire(rest, oks));
    } else {
        lemma_failed_write_drops_only_its_line(rest, oks, i);
        assert(rest.remove(i).push(lines[last]) =~= lines.remove(i));
        lemma_wire_push(rest.remove(i), lines[last], Seq::empty());
    }
}

/// When every write succeeds, the wire carries the lines one after another.
proof fn lemma_wire_all_delivered_4(l0: Seq<u8>, l1: Seq<u8>, l2: Seq<u8>, l3: Seq<u8>)
    ensures
        wire(seq![l0, l1, l2, l3], Seq::empty()) == l0 + l1 + l2 + l3,
{
    let e = Seq::<bool>::empty();
    lemma_wire_push(Seq::empty(), l0, e);
    assert(Seq::<Seq<u8>>::empty().push(l0) =~= seq![l0]);
    lemma_wire_push(seq![l0], l1, e);
    assert(seq![l0].push(l1) =~= seq![l0, l1]);
    lemma_wire_push(seq![l0, l1], l2, e);
    assert(seq![l0, l1].push(l2) =~= seq![l0, l1, l2]);
    lemma_wire_push(seq![l0, l1, l2], l3, e);
    assert(seq![l0, l1, l2].push(l3) =~= seq![l0, l1, l2, l3]);
    assert(Seq::<u8>::empty() + l0 =~= l0);
}

/// With the fourth counter zero, the report is exactly the four decimal
/// lines, in counter order, with no fifth line; written without failures it
/// puts exactly their bytes on the wire.
pub proof fn lemma_fourth_zero_four_lines(a: u32, b: u32, c: u32)
    ensures
        report_lines(a, b, c, 0) == seq![
            number_line(a as nat),
            number_line(b as nat),
            number_line(c as nat),
            number_line(0),
        ],
        wire(report_lines(a, b, c, 0), Seq::empty()) == number_line(a as nat) + number_line(
            b as nat,
        ) + number_line(c as nat) + number_line(0),
        number_line(0) == seq![ZERO_DIGIT, CR, LF],
{
    lemma_wire_all_delivered_4(
        number_line(a as nat),
        number_line(b as nat),
        number_line(c as nat),
        number_line(0),
    );
    assert(decimal_of(0) =~= seq![ZERO_DIGIT]);
    assert(number_line(0) =~= seq![ZERO_DIGIT, CR, LF]);
}

/// With the fourth counter non-zero, the report is the four decimal lines
/// followed by exactly one diagnostic line: it is the last line, and none of
/// the four before it is a diagnostic line.
pub proof fn lemma_fourth_nonzero_one_marker(a: u32, b: u32, c: u32, d: u32)
    requires
        d != 0,
    ensures
        report_lines(a, b, c, d).len() == 5,
        report_lines(a, b, c, d).take(4) == seq![
            number_line(a as nat),
            number_line(b as nat),
            number_line(c as nat),
            number_line(d as nat),
        ],
        report_lines(a, b, c, d)[4] == bug_line(),
        forall|i: int| 0 <= i < 4 ==> report_lines(a, b, c, d)[i] != bug_line(),
        wire(report_lines(a, b, c, d), Seq::empty()) == number_line(a as nat) + number_line(
            b as nat,
        ) + number_line(c as nat) + number_line(d as nat) + bug_line(),
{
    let four = seq![
        number_line(a as nat),
        number_line(b as nat),
        number_line(c as nat),
        number_line(d as nat),
    ];
    assert(report_lines(a, b, c, d).take(4) =~= four);
    lemma_wire_all_delivered_4(four[0], four[1], four[2], four[3]);
    lemma_wire_push(four, bug_line(), Seq::empty());
    assert forall|i: int| 0 <= i < 4 implies report_lines(a, b, c, d)[i] != bug_line() by {
        let n: nat = if i == 0 {
            a as nat
        } else if i == 1 {
            b as nat
        } else if i == 2 {
            c as nat
        } else {
            d as nat
        };
        assert(report_lines(a, b, c, d)[i] == number_line(n));
        lemma_decimal_digits(n);
        assert(is_digit(decimal_of(n)[0]));
        assert(number_line(n)[0] == decimal_of(n)[0]);
        assert(bug_line()[0] == 66u8);
    }
}

/// Two states with the same counters report the same lines and, under the
/// same write outcomes, put the same bytes on the wire: nothing else enters
/// the output.
pub proof fn lemma_same_counters_same_output(s1: &State, s2: &State, oks: Seq<bool>)
    requires
        s1.counters() == s2.counters(),
    ensures
        s1.lines() == s2.lines(),
        wire(s1.lines(), oks) == wire(s2.lines(), oks),
{
}

} // verus!

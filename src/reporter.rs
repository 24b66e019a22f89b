//! The write sequence: one line per step, then a permanent halt.

use vstd::prelude::*;

verus! {

/// Whether the write at index `i` (counted from the first write) reaches the
/// wire, given the outcomes `oks`: a write with no listed outcome succeeds.
pub open spec fn delivered(oks: Seq<bool>, i: int) -> bool {
    i >= oks.len() || oks[i]
}

/// The bytes that reach the wire when `lines` are written in order and the
/// `i`-th write succeeds exactly when `delivered(oks, i)`: a failed write
/// leaves out its own line and nothing else.
pub open spec fn wire(lines: Seq<Seq<u8>>, oks: Seq<bool>) -> Seq<u8>
    decreases lines.len(),
{
    if lines.len() == 0 {
        Seq::empty()
    } else {
        let last = lines.len() - 1;
        wire(lines.drop_last(), oks) + if delivered(oks, last) {
            lines[last]
        } else {
            Seq::empty()
        }
    }
}

/// What the firmware does next.
pub enum Action {
    /// Write these bytes to the serial line.
    Write(Vec<u8>),
    /// Stop for good: idle forever, writing nothing more.
    Halt,
}

/// Hands out a fixed list of lines one at a time, then halts.
pub struct Reporter {
    lines: Vec<Vec<u8>>,
    next: usize,
}

impl Reporter {
    /// The lines to write, in order.
    pub closed spec fn lines(&self) -> Seq<Seq<u8>> {
        self.lines@.map_values(|l: Vec<u8>| l@)
    }

    /// How many lines have been handed out.
    pub closed spec fn position(&self) -> nat {
        self.next as nat
    }

    pub open spec fn wf(&self) -> bool {
        self.position() <= self.lines().len()
    }

    /// Whether every line has been handed out.
    pub open spec fn halted(&self) -> bool {
        self.position() == self.lines().len()
    }

    /// A reporter that has handed out nothing yet.
    pub fn new(lines: Vec<Vec<u8>>) -> (r: Reporter)
        ensures
            r.wf(),
            r.lines() == lines@.map_values(|l: Vec<u8>| l@),
            r.position() == 0,
    {
        Reporter { lines, next: 0 }
    }

    /// Decides the next action. The outcome of the previous write is taken
    /// and discarded: a failed write neither stops, repeats nor reorders the
    /// lines. Once every line is out, every step halts and changes nothing.
    pub fn step(&mut self, previous_write_ok: bool) -> (r: Action)
        requires
            old(self).wf(),
        ensures
            final(self).wf(),
            final(self).lines() == old(self).lines(),
            old(self).halted() ==> (r is Halt && final(self).position() == old(self).position()),
            match r {
                Action::Write(bytes) => {
                    &&& old(self).position() < old(self).lines().len()
                    &&& bytes@ == old(self).lines()[old(self).position() as int]
                    &&& final(self).position() == old(self).position() + 1
                },
                Action::Halt => {
                    &&& old(self).halted()
                    &&& final(self).position() == old(self).position()
                },
            },
    {
        if self.next < self.lines.len() {
            let bytes = self.lines[self.next].clone();
            self.next = self.next + 1;
            Action::Write(bytes)
        } else {
            Action::Halt
        }
    }

    /// Runs the reporter to its halt against a channel whose `i`-th write
    /// from now succeeds exactly when `delivered(outcomes@, i)`, and returns
    /// the bytes that reached the wire.
    pub fn transcript(self, outcomes: &Vec<bool>) -> (r: Vec<u8>)
        requires
            self.wf(),
        ensures
            r@ == wire(self.lines().skip(self.position() as int), outcomes@),
    {
        let ghost start = self.position();
        let ghost pending = self.lines().skip(start as int);
        let mut rep = self;
        let mut out: Vec<u8> = Vec::new();
        let mut k: usize = 0;
        let mut last_ok = true;
        loop
            invariant
                rep.wf(),
                start <= self.lines().len(),
                pending == self.lines().skip(start as int),
                rep.lines() == self.lines(),
                rep.position() == start + k,
                out@ == wire(pending.take(k as int), outcomes@),
            ensures
                out@ == wire(pending, outcomes@),
            decreases rep.lines().len() - rep.position(),
        {
            match rep.step(last_ok) {
                Action::Halt => {
                    assert(pending.take(k as int) =~= pending);
                    break;
                },
                Action::Write(bytes) => {
                    let ok = k >= outcomes.len() || outcomes[k];
                    let ghost before = out@;
                    if ok {
                        let mut b = bytes;
                        out.append(&mut b);
                    }
                    proof {
                        assert(k < pending.len());
                        assert(pending.take(k + 1).drop_last() =~= pending.take(k as int));
                        assert(pending.take(k + 1)[k as int] == pending[k as int]);
                        if ok {
                            assert(out@ =~= before + pending[k as int]);
                        } else {
                            assert(out@ =~= before + Seq::<u8>::empty());
                        }
                    }
                    last_ok = ok;
                    k = k + 1;
                },
            }
        }
        out
    }
}

} // verus!

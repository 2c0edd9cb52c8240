//! The two-wire digital line capability consumed by the driver.
//!
//! A GPIO line is modelled by three ghost quantities: a fixed `script` of
//! levels the line will deliver to successive reads, a read cursor `pos`
//! into that script, and a log `written` of every level driven onto the
//! line.  Reads past the end of the script return high (`true`), matching a
//! released input line with a pull-up; the cursor stops at the end of the
//! script.  [`SimLine`] is the in-crate implementation, a scripted line used
//! to exercise the driver without hardware; an implementation backed by real
//! GPIO pins lives outside the verified library.

use vstd::prelude::*;

verus! {

/// The level the read at position `i` of a script returns: the scripted
/// entry while there is one, high once the script is exhausted.
pub open spec fn level_at(script: Seq<bool>, i: int) -> bool {
    if 0 <= i < script.len() {
        script[i]
    } else {
        true
    }
}

/// Read-cursor position after `m` further reads of a line whose script has
/// `len` entries: one step per read, stopping at the end of the script.
pub open spec fn advanced(pos: nat, m: nat, len: nat) -> nat {
    if pos < len {
        if pos + m < len {
            (pos + m) as nat
        } else {
            len
        }
    } else {
        pos
    }
}

/// Advancing a cursor by `a` reads and then by `b` more is advancing it by
/// `a + b` at once.
pub proof fn lemma_advanced_compose(pos: nat, a: nat, b: nat, len: nat)
    ensures
        advanced(advanced(pos, a, len), b, len) == advanced(pos, a + b, len),
{
}

/// The level delivered at the cursor equals the level of the virtual read
/// index `pos + m`, whether or not the cursor has stopped at the script end.
pub proof fn lemma_level_at_advanced(script: Seq<bool>, pos: nat, m: nat)
    ensures
        level_at(script, advanced(pos, m, script.len()) as int) == level_at(
            script,
            pos + m as int,
        ),
{
}

/// One digital input/output line: mode configuration, level reads and level
/// writes, specified against the script/cursor/log model above.
pub trait DigitalLine: Sized {
    /// Every level this line will deliver to reads, in order.  The default
    /// models a released line, which always reads high.
    open spec fn script(&self) -> Seq<bool> {
        Seq::empty()
    }

    /// How many reads have been consumed from the script.
    open spec fn pos(&self) -> nat {
        0
    }

    /// Every level written to the line so far, in order.
    open spec fn written(&self) -> Seq<bool> {
        Seq::empty()
    }

    /// Whether mode configuration succeeds on this line.
    open spec fn setup_ok(&self) -> bool {
        true
    }

    /// Configure the line as an input; returns whether that succeeded.
    fn set_input(&mut self) -> (ok: bool)
        ensures
            ok == old(self).setup_ok(),
            final(self).script() == old(self).script(),
            final(self).pos() == old(self).pos(),
            final(self).written() == old(self).written(),
            final(self).setup_ok() == old(self).setup_ok(),
    ;

    /// Configure the line as an output; returns whether that succeeded.
    fn set_output(&mut self) -> (ok: bool)
        ensures
            ok == old(self).setup_ok(),
            final(self).script() == old(self).script(),
            final(self).pos() == old(self).pos(),
            final(self).written() == old(self).written(),
            final(self).setup_ok() == old(self).setup_ok(),
    ;

    /// Read the line's current level: the next scripted level, or high once
    /// the script is exhausted.
    fn read_level(&mut self) -> (level: bool)
        ensures
            level == level_at(old(self).script(), old(self).pos() as int),
            final(self).pos() == advanced(old(self).pos(), 1, old(self).script().len()),
            final(self).script() == old(self).script(),
            final(self).written() == old(self).written(),
            final(self).setup_ok() == old(self).setup_ok(),
    ;

    /// Drive the line to `level` (true = high, false = low).
    fn write_level(&mut self, level: bool)
        ensures
            final(self).written() == old(self).written().push(level),
            final(self).script() == old(self).script(),
            final(self).pos() == old(self).pos(),
            final(self).setup_ok() == old(self).setup_ok(),
    ;
}

/// A scripted line: reads consume a fixed list of levels prepared up front,
/// writes are recorded.  It stands in for a GPIO pin wherever the driver is
/// exercised without hardware.
pub struct SimLine {
    levels: Vec<bool>,
    cursor: usize,
    writes: Vec<bool>,
    configurable: bool,
}

impl SimLine {
    /// A line that will deliver `levels` to successive reads and whose mode
    /// configuration always succeeds.
    pub fn new(levels: Vec<bool>) -> (r: SimLine)
        ensures
            r.script() == levels@,
            r.pos() == 0,
            r.written() == Seq::<bool>::empty(),
            r.setup_ok(),
    {
        SimLine { levels, cursor: 0, writes: Vec::new(), configurable: true }
    }

    /// A line whose mode configuration fails, for exercising construction
    /// errors.
    pub fn new_failing_setup(levels: Vec<bool>) -> (r: SimLine)
        ensures
            r.script() == levels@,
            r.pos() == 0,
            r.written() == Seq::<bool>::empty(),
            !r.setup_ok(),
    {
        SimLine { levels, cursor: 0, writes: Vec::new(), configurable: false }
    }

    /// How many scripted levels have not been consumed yet.
    pub fn remaining(&self) -> (n: usize)
        ensures
            n == self.script().len() - self.pos(),
    {
        if self.cursor <= self.levels.len() {
            self.levels.len() - self.cursor
        } else {
            0
        }
    }

    /// The log of every level written to the line, oldest first.
    pub fn written_levels(&self) -> (w: &Vec<bool>)
        ensures
            w@ == self.written(),
    {
        &self.writes
    }
}

impl DigitalLine for SimLine {
    closed spec fn script(&self) -> Seq<bool> {
        self.levels@
    }

    closed spec fn pos(&self) -> nat {
        if self.cursor <= self.levels.len() {
            self.cursor as nat
        } else {
            self.levels@.len()
        }
    }

    closed spec fn written(&self) -> Seq<bool> {
        self.writes@
    }

    closed spec fn setup_ok(&self) -> bool {
        self.configurable
    }

    fn set_input(&mut self) -> (ok: bool) {
        self.configurable
    }

    fn set_output(&mut self) -> (ok: bool) {
        self.configurable
    }

    fn read_level(&mut self) -> (level: bool) {
        if self.cursor < self.levels.len() {
            let level = self.levels[self.cursor];
            self.cursor = self.cursor + 1;
            level
        } else {
            true
        }
    }

    fn write_level(&mut self, level: bool) {
        self.writes.push(level);
    }
}

} // verus!

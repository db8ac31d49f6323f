use vstd::prelude::*;
use crate::report::{MouseReport, total_dx, total_dy};

verus! {

/// Distance, in HID units, that every step moves the pointer along one axis.
pub const STEP: i8 = 5;

/// The four phases of the square path, in the order they are walked.
#[derive(Clone, Copy, Debug, PartialEq, Eq, Structural)]
pub enum Direction {
    Left,
    Right,
    Up,
    Down,
}

impl Direction {
    /// Position of the phase in the cycle Left, Right, Up, Down.
    pub open spec fn index(self) -> nat {
        match self {
            Direction::Left => 0,
            Direction::Right => 1,
            Direction::Up => 2,
            Direction::Down => 3,
        }
    }

    /// The phase at position `i` of the endlessly repeated cycle.
    pub open spec fn at(i: nat) -> Direction {
        let k = i % 4;
        if k == 0 {
            Direction::Left
        } else if k == 1 {
            Direction::Right
        } else if k == 2 {
            Direction::Up
        } else {
            Direction::Down
        }
    }

    /// The phase that follows this one.
    pub open spec fn succ(self) -> Direction {
        match self {
            Direction::Left => Direction::Right,
            Direction::Right => Direction::Up,
            Direction::Up => Direction::Down,
            Direction::Down => Direction::Left,
        }
    }

    /// The report emitted while in this phase.
    pub open spec fn report_spec(self) -> MouseReport {
        let (x, y): (i8, i8) = match self {
            Direction::Left => ((-STEP) as i8, 0),
            Direction::Right => (STEP, 0),
            Direction::Up => (0, (-STEP) as i8),
            Direction::Down => (0, STEP),
        };
        MouseReport { buttons: 0, x, y, wheel: 0, pan: 0 }
    }

    /// Executable form of `succ`.
    pub fn following(self) -> (r: Direction)
        ensures
            r == self.succ(),
    {
        match self {
            Direction::Left => Direction::Right,
            Direction::Right => Direction::Up,
            Direction::Up => Direction::Down,
            Direction::Down => Direction::Left,
        }
    }

    /// The report emitted while in this phase.
    pub fn report(self) -> (r: MouseReport)
        ensures
            r == self.report_spec(),
    {
        match self {
            Direction::Left => MouseReport::movement((-STEP) as i8, 0),
            Direction::Right => MouseReport::movement(STEP, 0),
            Direction::Up => MouseReport::movement(0, (-STEP) as i8),
            Direction::Down => MouseReport::movement(0, STEP),
        }
    }
}

/// The phase reached from `d` after `n` steps.
pub open spec fn advance(d: Direction, n: nat) -> Direction
    decreases n,
{
    if n == 0 {
        d
    } else {
        advance(d, (n - 1) as nat).succ()
    }
}

/// The reports produced by `n` calls of `next` from phase `d`, in order.
pub open spec fn reports_from(d: Direction, n: nat) -> Seq<MouseReport>
    decreases n,
{
    if n == 0 {
        Seq::empty()
    } else {
        reports_from(d, (n - 1) as nat).push(advance(d, (n - 1) as nat).report_spec())
    }
}

/// Generator of the square path: one report per call, cycling through
/// Left, Right, Up, Down forever.
#[derive(Debug)]
pub struct MovementSequencer {
    phase: Direction,
}

impl MovementSequencer {
    /// The phase whose report the next call of `next` returns.
    pub closed spec fn phase_spec(&self) -> Direction {
        self.phase
    }

    /// A sequencer at the start of the cycle (Left).
    pub fn new() -> (s: MovementSequencer)
        ensures
            s.phase_spec() == Direction::Left,
    {
        MovementSequencer { phase: Direction::Left }
    }

    /// A sequencer whose next report is the one of phase `d`.
    pub fn starting_at(d: Direction) -> (s: MovementSequencer)
        ensures
            s.phase_spec() == d,
    {
        MovementSequencer { phase: d }
    }

    /// The phase whose report the next call of `next` returns.
    pub fn phase(&self) -> (d: Direction)
        ensures
            d == self.phase_spec(),
    {
        self.phase
    }

    /// Returns the report of the current phase and moves to the following one.
    pub fn next(&mut self) -> (r: MouseReport)
        ensures
            r == old(self).phase_spec().report_spec(),
            final(self).phase_spec() == old(self).phase_spec().succ(),
    {
        let r = self.phase.report();
        self.phase = self.phase.following();
        r
    }
}

/// Every report of the sequencer moves along exactly one axis by `STEP`,
/// one way or the other, and presses no button, turns no wheel and pans not.
pub proof fn lemma_reports_are_single_axis_steps(d: Direction)
    ensures
        ({
            let r = d.report_spec();
            &&& r.x == -STEP || r.x == 0 || r.x == STEP
            &&& r.y == -STEP || r.y == 0 || r.y == STEP
            &&& r.x == 0 || r.y == 0
            &&& r.x != 0 || r.y != 0
            &&& r.is_plain_move()
        }),
{
}

/// The phases follow the fixed cycle Left, Right, Up, Down: `n` steps from any
/// phase land on the phase `n` places further round the cycle, so four steps
/// always come back to the starting phase.
pub proof fn lemma_cycle_is_periodic(d: Direction, n: nat)
    ensures
        advance(d, n) == Direction::at(d.index() + n),
        advance(d, n + 4) == advance(d, n),
        advance(d, 4) == d,
    decreases n,
{
    if n > 0 {
        lemma_cycle_is_periodic(d, (n - 1) as nat);
    }
    assert(advance(d, n + 4) == advance(d, n)) by {
        lemma_advance_split(d, n, 4);
        lemma_four_steps(advance(d, n));
    }
    lemma_four_steps(d);
}

proof fn lemma_four_steps(d: Direction)
    ensures
        advance(d, 4) == d,
{
    reveal_with_fuel(advance, 5);
}

proof fn lemma_advance_split(d: Direction, m: nat, n: nat)
    ensures
        advance(d, m + n) == advance(advance(d, m), n),
    decreases n,
{
    if n > 0 {
        lemma_advance_split(d, m, (n - 1) as nat);
    }
}

/// Four consecutive reports, from whichever phase they start, add up to no
/// displacement at all: the square path closes.
pub proof fn lemma_square_returns_to_origin(d: Direction)
    ensures
        total_dx(reports_from(d, 4)) == 0,
        total_dy(reports_from(d, 4)) == 0,
{
    reveal_with_fuel(reports_from, 5);
    reveal_with_fuel(advance, 4);
    reveal_with_fuel(total_dx, 5);
    reveal_with_fuel(total_dy, 5);
}

} // verus!

//! The diagnostic loops.
//!
//! Once a fault has struck, the LEDs repeat one of two patterns for as long as
//! the board has power. A pattern is a finite schedule of actions that starts
//! over when it ends. [`schedule`] writes both patterns down as sequences, and
//! [`DiagnosticLoop`] is a cursor that walks one of them, one action per step.
//! The loop itself never sleeps and never touches an LED: it says what is due,
//! and the runtime does it.
use vstd::arithmetic::div_mod::{
    lemma_breakdown, lemma_fundamental_div_mod, lemma_fundamental_div_mod_converse, lemma_mod_bound,
    lemma_small_mod,
};
use vstd::arithmetic::mul::{lemma_mul_is_commutative, lemma_mul_is_distributive_add_other_way};
use vstd::prelude::*;

verus! {

/// How long each pause of a pattern lasts, in milliseconds.
pub const PAUSE_MS: u32 = 100;

/// One thing that a pattern asks for.
#[derive(Clone, Copy, Debug, PartialEq, Eq, Structural)]
pub enum Action {
    /// Turn this LED on.
    On(u32),
    /// Turn this LED off.
    Off(u32),
    /// Suspend for this many milliseconds.
    Sleep(u32),
}

/// The two patterns.
#[derive(Clone, Copy, Debug, PartialEq, Eq, Structural)]
pub enum Pattern {
    /// All LEDs on, a pause, all LEDs off, a pause.
    SimultaneousBlink,
    /// One LED after the other: on, a pause, off, a pause.
    SequentialCycle,
}

/// One turn of the simultaneous blink over `count` LEDs: every LED on in the
/// order of the indices, a pause, every LED off in the same order, a pause.
///
/// The pattern has two states, all on and all off, and a turn is one stay in
/// each: `count + 1` actions to enter the first and hold it, as many for the
/// second.
pub open spec fn blink_cycle(count: nat) -> Seq<Action> {
    Seq::new(count, |unit: int| Action::On(unit as u32)).push(Action::Sleep(PAUSE_MS))
        + Seq::new(count, |unit: int| Action::Off(unit as u32)).push(Action::Sleep(PAUSE_MS))
}

/// What the sequential cycle does with one LED: on, a pause, off, a pause.
pub open spec fn unit_turn(unit: u32) -> Seq<Action> {
    seq![
        Action::On(unit),
        Action::Sleep(PAUSE_MS),
        Action::Off(unit),
        Action::Sleep(PAUSE_MS),
    ]
}

/// One pass of the sequential cycle over `count` LEDs: the turn of LED 0, then
/// that of LED 1, and so on to the last.
pub open spec fn cycle_pass(count: nat) -> Seq<Action>
    decreases count,
{
    if count == 0 {
        Seq::empty()
    } else {
        cycle_pass((count - 1) as nat) + unit_turn((count - 1) as u32)
    }
}

/// The actions of one period of `pattern` over `count` LEDs, in order.
pub open spec fn schedule(pattern: Pattern, count: nat) -> Seq<Action> {
    match pattern {
        Pattern::SimultaneousBlink => blink_cycle(count),
        Pattern::SequentialCycle => cycle_pass(count),
    }
}

/// A place in a pattern: the mathematical state of a [`DiagnosticLoop`].
pub struct Cursor {
    /// The pattern that is being repeated.
    pub pattern: Pattern,
    /// How many LEDs the pattern runs over.
    pub count: nat,
    /// The index, within one period, of the action that is due next.
    pub position: nat,
}

impl Cursor {
    /// The cursor at the beginning of a pattern.
    pub open spec fn start(pattern: Pattern, count: nat) -> Cursor {
        Cursor { pattern, count, position: 0 }
    }

    /// One period of the cursor's pattern.
    pub open spec fn schedule(self) -> Seq<Action> {
        schedule(self.pattern, self.count)
    }

    /// The cursor stands within its period, and the LEDs can be indexed.
    pub open spec fn wf(self) -> bool {
        &&& self.count <= u32::MAX
        &&& self.position == 0 || self.position < self.schedule().len()
    }

    /// The action that is due, if the pattern has any.
    ///
    /// Only the sequential cycle over no LEDs at all has none.
    pub open spec fn due(self) -> Option<Action> {
        if self.schedule().len() == 0 {
            None
        } else {
            Some(self.schedule()[self.position as int])
        }
    }

    /// The cursor one action later, back at the beginning after the last.
    pub open spec fn next(self) -> Cursor {
        Cursor {
            position: if self.position + 1 < self.schedule().len() {
                self.position + 1
            } else {
                0
            },
            ..self
        }
    }

    /// The cursor `steps` actions later.
    pub open spec fn after(self, steps: nat) -> Cursor
        decreases steps,
    {
        if steps == 0 {
            self
        } else {
            self.after((steps - 1) as nat).next()
        }
    }
}

/// The length of one simultaneous blink, and the action at each place in it:
/// the LEDs go on at the places `0` to `count - 1`, the first pause stands at
/// `count`, the LEDs go off at `count + 1` to `2 * count`, and the second pause
/// stands at `2 * count + 1`.
pub proof fn lemma_blink_cycle(count: nat)
    ensures
        blink_cycle(count).len() == 2 * count + 2,
        forall|place: int|
            0 <= place < 2 * count + 2 ==> #[trigger] blink_cycle(count)[place] == if place
                < count {
                Action::On(place as u32)
            } else if place == count {
                Action::Sleep(PAUSE_MS)
            } else if place <= 2 * count {
                Action::Off((place - count - 1) as u32)
            } else {
                Action::Sleep(PAUSE_MS)
            },
{
}

/// The length of one sequential pass, and the action at each place in it:
/// place `4 * unit + k` holds the `k`-th action of the turn of LED `unit`.
pub proof fn lemma_cycle_pass(count: nat)
    requires
        count <= u32::MAX,
    ensures
        cycle_pass(count).len() == 4 * count,
        forall|place: int|
            0 <= place < 4 * count ==> #[trigger] cycle_pass(count)[place] == unit_turn(
                (place / 4) as u32,
            )[place % 4],
    decreases count,
{
    if count > 0 {
        let shorter = (count - 1) as nat;
        lemma_cycle_pass(shorter);
        assert forall|place: int| 0 <= place < 4 * count implies #[trigger] cycle_pass(count)[place]
            == unit_turn((place / 4) as u32)[place % 4] by {
            if place < 4 * shorter {
                assert(cycle_pass(count)[place] == cycle_pass(shorter)[place]);
            } else {
                assert(cycle_pass(count)[place] == unit_turn(shorter as u32)[place - 4 * shorter]);
                assert(place / 4 == shorter && place % 4 == place - 4 * shorter);
            }
        }
    }
}

/// Counting one further round a circle of `len` places: the next place, or the
/// first after the last.
proof fn lemma_successor_mod(sum: int, len: int)
    requires
        0 <= sum,
        0 < len,
    ensures
        (sum + 1) % len == if sum % len + 1 < len {
            sum % len + 1
        } else {
            0
        },
{
    let q = sum / len;
    let r = sum % len;
    lemma_fundamental_div_mod(sum, len);
    lemma_mod_bound(sum, len);
    lemma_mul_is_commutative(len, q);
    if r + 1 < len {
        lemma_fundamental_div_mod_converse(sum + 1, len, q, r + 1);
    } else {
        lemma_mul_is_distributive_add_other_way(len, q, 1);
        lemma_fundamental_div_mod_converse(sum + 1, len, q + 1, 0);
    }
}

/// Stepping keeps the pattern and the number of LEDs, and moves the cursor
/// round its period: after `steps` actions it stands `steps` places further on,
/// counted modulo the length of the period.
pub proof fn lemma_after(cursor: Cursor, steps: nat)
    requires
        cursor.wf(),
    ensures
        cursor.after(steps).wf(),
        cursor.after(steps).pattern == cursor.pattern,
        cursor.after(steps).count == cursor.count,
        cursor.schedule().len() > 0 ==> cursor.after(steps).position == (cursor.position + steps)
            % cursor.schedule().len(),
        cursor.schedule().len() == 0 ==> cursor.after(steps).position == 0,
    decreases steps,
{
    let len = cursor.schedule().len();
    if steps == 0 {
        if len > 0 {
            lemma_small_mod(cursor.position, len);
        }
    } else {
        let before = cursor.after((steps - 1) as nat);
        lemma_after(cursor, (steps - 1) as nat);
        assert(before.schedule() == cursor.schedule());
        if len > 0 {
            lemma_successor_mod(cursor.position + steps - 1, len as int);
        }
    }
}

/// The simultaneous blink repeats for ever. From the beginning of the
/// pattern over `count` LEDs, every turn of `2 * count + 2` steps asks for LED
/// 0 to LED `count - 1` on, one pause, LED 0 to LED `count - 1` off, and one
/// pause, whatever the number of turns that came before.
pub proof fn lemma_blink_repeats(count: nat, steps: nat)
    requires
        count <= u32::MAX,
    ensures
        ({
            let place = steps % (2 * count + 2);
            let due = Cursor::start(Pattern::SimultaneousBlink, count).after(steps).due();
            if place < count {
                due == Some(Action::On(place as u32))
            } else if place == count {
                due == Some(Action::Sleep(PAUSE_MS))
            } else if place <= 2 * count {
                due == Some(Action::Off((place - count - 1) as u32))
            } else {
                due == Some(Action::Sleep(PAUSE_MS))
            }
        }),
{
    let start = Cursor::start(Pattern::SimultaneousBlink, count);
    lemma_blink_cycle(count);
    lemma_after(start, steps);
}

/// The sequential cycle repeats for ever. From the beginning of the pattern
/// over `count` LEDs, step `4 * n + k` belongs to the turn of LED `n % count`
/// and is the `k`-th action of that turn: on, a pause, off, a pause. After the
/// last LED the first one follows. Over no LEDs nothing is ever due.
pub proof fn lemma_cycle_repeats(count: nat, steps: nat)
    requires
        count <= u32::MAX,
    ensures
        ({
            let due = Cursor::start(Pattern::SequentialCycle, count).after(steps).due();
            if count == 0 {
                due is None
            } else {
                due == Some(unit_turn(((steps / 4) % count) as u32)[(steps % 4) as int])
            }
        }),
{
    let start = Cursor::start(Pattern::SequentialCycle, count);
    lemma_cycle_pass(count);
    lemma_after(start, steps);
    if count > 0 {
        let n = count as int;
        let s = steps as int;
        let place = s % (4 * n);
        let unit = (s / 4) % n;
        let k = s % 4;
        assert(place == 4 * unit + k) by {
            lemma_breakdown(s, 4, n);
        }
        assert(place / 4 == unit && place % 4 == k);
    }
}

/// A diagnostic loop: a pattern, the number of LEDs it runs over, and the place
/// that it has reached.
///
/// It is three numbers and owns nothing on the heap. Its mathematical state is
/// a [`Cursor`], which is always within its period.
#[derive(Clone, Copy, Debug)]
pub struct DiagnosticLoop {
    pattern: Pattern,
    count: u32,
    position: u64,
}

impl View for DiagnosticLoop {
    type V = Cursor;

    closed spec fn view(&self) -> Cursor {
        Cursor { pattern: self.pattern, count: self.count as nat, position: self.position as nat }
    }
}

impl DiagnosticLoop {
    #[verifier::type_invariant]
    spec fn well_formed(self) -> bool {
        self@.wf()
    }

    /// The loop at the beginning of `pattern` over `count` LEDs.
    pub fn new(pattern: Pattern, count: u32) -> (fresh: Self)
        ensures
            fresh@ == Cursor::start(pattern, count as nat),
            fresh@.wf(),
    {
        DiagnosticLoop { pattern, count, position: 0 }
    }

    /// The pattern that the loop repeats.
    pub fn pattern(&self) -> (pattern: Pattern)
        ensures
            pattern == self@.pattern,
    {
        self.pattern
    }

    /// The number of LEDs that the loop runs over.
    pub fn count(&self) -> (count: u32)
        ensures
            count == self@.count,
    {
        self.count
    }

    /// The number of actions in one period.
    pub fn period(&self) -> (len: u64)
        ensures
            len == self@.schedule().len(),
    {
        proof {
            lemma_blink_cycle(self.count as nat);
            lemma_cycle_pass(self.count as nat);
        }
        let count = self.count as u64;
        match self.pattern {
            Pattern::SimultaneousBlink => 2 * count + 2,
            Pattern::SequentialCycle => 4 * count,
        }
    }

    /// The action that is due, without moving on.
    pub fn due(&self) -> (action: Option<Action>)
        ensures
            self@.wf(),
            action == self@.due(),
    {
        proof {
            use_type_invariant(self);
            lemma_blink_cycle(self.count as nat);
            lemma_cycle_pass(self.count as nat);
        }
        let count = self.count as u64;
        let place = self.position;
        match self.pattern {
            Pattern::SimultaneousBlink => {
                if place < count {
                    Some(Action::On(place as u32))
                } else if place == count {
                    Some(Action::Sleep(PAUSE_MS))
                } else if place <= 2 * count {
                    Some(Action::Off((place - count - 1) as u32))
                } else {
                    Some(Action::Sleep(PAUSE_MS))
                }
            },
            Pattern::SequentialCycle => {
                if count == 0 {
                    None
                } else {
                    let unit = place / 4;
                    let k = place % 4;
                    if k == 0 {
                        Some(Action::On(unit as u32))
                    } else if k == 2 {
                        Some(Action::Off(unit as u32))
                    } else {
                        Some(Action::Sleep(PAUSE_MS))
                    }
                }
            },
        }
    }

    /// Moves on by one action, and back to the beginning after the last.
    pub fn advance(&mut self)
        ensures
            final(self)@ == old(self)@.next(),
            final(self)@.wf(),
    {
        proof {
            use_type_invariant(&*self);
        }
        let len = self.period();
        if self.position + 1 < len {
            self.position = self.position + 1;
        } else {
            self.position = 0;
        }
    }

    /// Hands out the action that is due and moves on to the next.
    pub fn step(&mut self) -> (action: Option<Action>)
        ensures
            action == old(self)@.due(),
            final(self)@ == old(self)@.next(),
            final(self)@.wf(),
    {
        let action = self.due();
        self.advance();
        action
    }
}

} // verus!

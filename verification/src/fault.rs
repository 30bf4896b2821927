//! The path from a fault to its signal.
//!
//! Two things can strike a program that it cannot recover from: a panic, and a
//! request for memory that cannot be met. Each has its own entry point in the
//! runtime, and from there neither returns. What the entry point still does is
//! the same in both, up to two choices, the status code and the pattern:
//!
//! * a panic first sends a status code down the debug channel;
//! * the timer driver is looked for, then the LED driver, each whether or not
//!   the other was found;
//! * with both in hand the LEDs repeat a pattern for ever, the simultaneous
//!   blink after a panic and the sequential cycle after a failed allocation;
//!   with either missing the processor idles for ever.
//!
//! A [`FaultPath`] holds the place that a handler has reached on this path. It
//! names the [`Request`] that is due; whoever carries the request out reports
//! the [`Outcome`], and the path moves on. What the LED driver answers,
//! [`FaultPath::proceed`] carries out itself through the command channel. The
//! rest is the runtime's: the debug channel, the timer, and the waiting. The
//! path keeps no handle and owns nothing on the heap, so it can be walked when
//! the allocator has nothing left to give.
use vstd::prelude::*;
use crate::channel::{answers_u32, answers_unit, Syscalls};
use crate::diagnostic::{
    lemma_after, lemma_blink_cycle, lemma_cycle_pass, Action, Cursor, DiagnosticLoop, Pattern,
};
use crate::error::ErrorCode;
use crate::leds::{Leds, DRIVER_ID, LEDS_COUNT, LED_OFF, LED_ON};

verus! {

/// The status code that a panic sends down the debug channel.
pub const PANIC_STATUS: u32 = 1;

/// The two faults that have an entry point.
#[derive(Clone, Copy, Debug, PartialEq, Eq, Structural)]
pub enum Fault {
    /// The program gave up on an invariant.
    Panic,
    /// A request for memory could not be met.
    AllocationFailure,
}

impl Fault {
    /// The pattern that signals this fault.
    pub open spec fn spec_pattern(self) -> Pattern {
        match self {
            Fault::Panic => Pattern::SimultaneousBlink,
            Fault::AllocationFailure => Pattern::SequentialCycle,
        }
    }

    /// The pattern that signals this fault: the simultaneous blink for a
    /// panic, the sequential cycle for a failed allocation.
    #[verifier::when_used_as_spec(spec_pattern)]
    pub fn pattern(self) -> (pattern: Pattern)
        ensures
            pattern == self.spec_pattern(),
    {
        match self {
            Fault::Panic => Pattern::SimultaneousBlink,
            Fault::AllocationFailure => Pattern::SequentialCycle,
        }
    }

    /// How many requests the handler of this fault makes before it looks for
    /// the timer driver: one if it sends a status code, none if it does not.
    pub open spec fn preamble(self) -> int {
        match self.status_code() {
            Some(_) => 1,
            None => 0,
        }
    }

    /// The status code that this fault announces itself with, if it does.
    pub open spec fn spec_status_code(self) -> Option<u32> {
        match self {
            Fault::Panic => Some(PANIC_STATUS),
            Fault::AllocationFailure => None,
        }
    }

    /// The status code that this fault announces itself with, if it does.
    ///
    /// A panic sends [`PANIC_STATUS`]. A failed allocation sends nothing: its
    /// handler keeps to what is certain to need no memory.
    #[verifier::when_used_as_spec(spec_status_code)]
    pub fn status_code(self) -> (code: Option<u32>)
        ensures
            code == self.spec_status_code(),
    {
        match self {
            Fault::Panic => Some(PANIC_STATUS),
            Fault::AllocationFailure => None,
        }
    }
}

/// What the runtime is asked to do next.
#[derive(Clone, Copy, Debug, PartialEq, Eq, Structural)]
pub enum Request {
    /// Send this status code down the debug channel, and do not mind whether
    /// it arrives.
    EmitStatus(u32),
    /// Create the timer driver and activate it.
    ObtainTimer,
    /// Create the LED driver and learn how many LEDs it has.
    ObtainLeds,
    /// Carry out this action of the diagnostic loop.
    Signal(Action),
    /// Idle, and never come back.
    Idle,
}

impl Request {
    /// Whether the LED driver answers this request, so that nothing but the
    /// command channel is needed to carry it out: looking for the driver, and
    /// turning an LED on or off.
    pub open spec fn for_leds(self) -> bool {
        match self {
            Request::ObtainLeds => true,
            Request::Signal(Action::On(_)) => true,
            Request::Signal(Action::Off(_)) => true,
            _ => false,
        }
    }

    /// `outcome` is what the capability `S` can answer to this request: the
    /// count of the LEDs where the driver is looked for, and where an LED is
    /// turned on or off, the result of that command for that LED.
    pub open spec fn answered<S: Syscalls>(self, outcome: Outcome) -> bool {
        match self {
            Request::ObtainLeds => exists|result: Result<u32, ErrorCode>|
                #[trigger] answers_u32::<S>(DRIVER_ID, LEDS_COUNT, 0, 0, result) && outcome
                    == Outcome::of_count(result),
            Request::Signal(Action::On(led)) => exists|result: Result<(), ErrorCode>|
                #[trigger] answers_unit::<S>(DRIVER_ID, LED_ON, led, 0, result) && outcome
                    == Outcome::of_unit(result),
            Request::Signal(Action::Off(led)) => exists|result: Result<(), ErrorCode>|
                #[trigger] answers_unit::<S>(DRIVER_ID, LED_OFF, led, 0, result) && outcome
                    == Outcome::of_unit(result),
            _ => false,
        }
    }

    /// Carries the request out through the LED driver, if it is one of those
    /// that the driver answers.
    ///
    /// Looking for the driver is counting its LEDs; an action on an LED is the
    /// command of that name. A status code, the timer, a pause and idleness
    /// are beyond the command channel: for them nothing is issued, and `None`
    /// leaves the request to the runtime.
    pub fn perform<S: Syscalls>(self) -> (outcome: Option<Outcome>)
        ensures
            match outcome {
                Some(outcome) => self.answered::<S>(outcome),
                None => !self.for_leds(),
            },
    {
        match self {
            Request::ObtainLeds => Some(Outcome::from_count(Leds::<S>::count())),
            Request::Signal(Action::On(led)) => Some(Outcome::from_unit(Leds::<S>::on(led))),
            Request::Signal(Action::Off(led)) => Some(Outcome::from_unit(Leds::<S>::off(led))),
            _ => None,
        }
    }
}

/// What the runtime reports of the request that it carried out.
#[derive(Clone, Copy, Debug, PartialEq, Eq, Structural)]
pub enum Outcome {
    /// It went well, and there is nothing more to tell.
    Done,
    /// The LED driver is there and has this many LEDs.
    Units(u32),
    /// It failed.
    Failed(ErrorCode),
}

impl Outcome {
    /// The outcome that counting the LEDs amounts to.
    pub open spec fn of_count(result: Result<u32, ErrorCode>) -> Outcome {
        match result {
            Ok(count) => Outcome::Units(count),
            Err(code) => Outcome::Failed(code),
        }
    }

    /// The outcome that an operation on one LED amounts to.
    pub open spec fn of_unit(result: Result<(), ErrorCode>) -> Outcome {
        match result {
            Ok(_) => Outcome::Done,
            Err(code) => Outcome::Failed(code),
        }
    }

    /// The outcome that counting the LEDs amounts to: the number of LEDs where
    /// the driver gave one, the failure where it did not.
    pub fn from_count(result: Result<u32, ErrorCode>) -> (outcome: Outcome)
        ensures
            outcome == Outcome::of_count(result),
    {
        match result {
            Ok(count) => Outcome::Units(count),
            Err(code) => Outcome::Failed(code),
        }
    }

    /// The outcome that an operation on one LED amounts to: done where it
    /// succeeded, the failure where it did not.
    pub fn from_unit(result: Result<(), ErrorCode>) -> (outcome: Outcome)
        ensures
            outcome == Outcome::of_unit(result),
    {
        match result {
            Ok(_) => Outcome::Done,
            Err(code) => Outcome::Failed(code),
        }
    }
}

/// A place on the path from a fault to its signal.
///
/// `L` is what stands for the diagnostic loop once it runs: the loop itself in
/// a [`FaultPath`], its [`Cursor`] in the path's mathematical state.
#[derive(Debug)]
pub enum Stage<L> {
    /// The status code of a panic is on its way.
    Reporting,
    /// The timer driver is being looked for.
    ProbingTimer {
        /// The fault that is being handled.
        fault: Fault,
    },
    /// The LED driver is being looked for.
    ProbingLeds {
        /// The fault that is being handled.
        fault: Fault,
        /// Whether the timer driver was found.
        timer: bool,
    },
    /// Both drivers were found, and the LEDs repeat their pattern.
    Signaling(L),
    /// A driver was missing, and nothing more will happen.
    Idle,
}

impl Stage<Cursor> {
    /// Where the handler of `fault` begins.
    pub open spec fn start(fault: Fault) -> Self {
        match fault.status_code() {
            Some(_) => Stage::Reporting,
            None => Stage::ProbingTimer { fault },
        }
    }

    /// Every cursor on the path is within its period.
    pub open spec fn wf(self) -> bool {
        self matches Stage::Signaling(cursor) ==> cursor.wf()
    }

    /// The request that is due at this stage.
    ///
    /// A loop with nothing to do, the sequential cycle over no LEDs, asks for
    /// what a missing driver asks for: idleness.
    pub open spec fn request(self) -> Request {
        match self {
            Stage::Reporting => Request::EmitStatus(PANIC_STATUS),
            Stage::ProbingTimer { .. } => Request::ObtainTimer,
            Stage::ProbingLeds { .. } => Request::ObtainLeds,
            Stage::Signaling(cursor) => match cursor.due() {
                Some(action) => Request::Signal(action),
                None => Request::Idle,
            },
            Stage::Idle => Request::Idle,
        }
    }

    /// The stage that follows once the request of this one came back with
    /// `outcome`.
    ///
    /// * The status code is sent on a best effort: the timer is looked for
    ///   next, however it went.
    /// * The timer counts as found unless obtaining it failed. The LED driver
    ///   is looked for next in either case.
    /// * The LED driver counts as found where the outcome names its LEDs. With
    ///   both drivers found the pattern of the fault begins; otherwise the
    ///   path ends in idleness.
    /// * Within the pattern the next action follows, whether the last one
    ///   succeeded or failed.
    /// * Idleness stays.
    pub open spec fn after(self, outcome: Outcome) -> Self {
        match self {
            Stage::Reporting => Stage::ProbingTimer { fault: Fault::Panic },
            Stage::ProbingTimer { fault } => Stage::ProbingLeds {
                fault,
                timer: !(outcome is Failed),
            },
            Stage::ProbingLeds { fault, timer } => match outcome {
                Outcome::Units(count) if timer => Stage::Signaling(
                    Cursor::start(fault.pattern(), count as nat),
                ),
                _ => Stage::Idle,
            },
            Stage::Signaling(cursor) => Stage::Signaling(cursor.next()),
            Stage::Idle => Stage::Idle,
        }
    }

    /// Whether the LED driver is still being looked for. Together with
    /// [`Stage::leds_before_pause`] this bounds how many requests in a row the
    /// LED driver can answer.
    spec fn probing_leds(self) -> nat {
        if self is ProbingLeds {
            1
        } else {
            0
        }
    }

    /// How many actions on LEDs the pattern asks for before its next pause.
    pub open spec fn leds_before_pause(self) -> nat {
        match self {
            Stage::Signaling(cursor) => match cursor.pattern {
                Pattern::SimultaneousBlink => {
                    if cursor.position < cursor.count {
                        (cursor.count - cursor.position) as nat
                    } else if cursor.count < cursor.position <= 2 * cursor.count {
                        (2 * cursor.count + 1 - cursor.position) as nat
                    } else {
                        0
                    }
                },
                Pattern::SequentialCycle => {
                    if cursor.count > 0 && cursor.position % 2 == 0 {
                        1
                    } else {
                        0
                    }
                },
            },
            _ => 0,
        }
    }

    /// The stage that is reached from this one when the requests come back
    /// with `outcomes`, one after the other.
    pub open spec fn run(self, outcomes: Seq<Outcome>) -> Self
        decreases outcomes.len(),
    {
        if outcomes.len() == 0 {
            self
        } else {
            self.run(outcomes.drop_last()).after(outcomes.last())
        }
    }

    /// Every request on the way from this stage through `outcomes` was one that
    /// the LED driver answers, and each outcome is what the capability `S` can
    /// answer to the request that was due when it came in.
    pub open spec fn answered_run<S: Syscalls>(self, outcomes: Seq<Outcome>) -> bool
        decreases outcomes.len(),
    {
        outcomes.len() == 0 || {
            &&& self.answered_run::<S>(outcomes.drop_last())
            &&& self.run(outcomes.drop_last()).request().answered::<S>(outcomes.last())
        }
    }
}

/// The place that a fault handler has reached.
///
/// Its mathematical state is a [`Stage`] over a [`Cursor`].
#[derive(Debug)]
pub struct FaultPath {
    stage: Stage<DiagnosticLoop>,
}

impl View for FaultPath {
    type V = Stage<Cursor>;

    closed spec fn view(&self) -> Stage<Cursor> {
        match self.stage {
            Stage::Reporting => Stage::Reporting,
            Stage::ProbingTimer { fault } => Stage::ProbingTimer { fault },
            Stage::ProbingLeds { fault, timer } => Stage::ProbingLeds { fault, timer },
            Stage::Signaling(running) => Stage::Signaling(running@),
            Stage::Idle => Stage::Idle,
        }
    }
}

impl FaultPath {
    /// The path of the handler of `fault`, at its beginning.
    pub fn new(fault: Fault) -> (path: Self)
        ensures
            path@ == Stage::start(fault),
            path@.wf(),
    {
        match fault.status_code() {
            Some(_) => FaultPath { stage: Stage::Reporting },
            None => FaultPath { stage: Stage::ProbingTimer { fault } },
        }
    }

    /// The request that is due.
    pub fn request(&self) -> (request: Request)
        ensures
            request == self@.request(),
            self@.wf(),
    {
        match &self.stage {
            Stage::Reporting => Request::EmitStatus(PANIC_STATUS),
            Stage::ProbingTimer { .. } => Request::ObtainTimer,
            Stage::ProbingLeds { .. } => Request::ObtainLeds,
            Stage::Signaling(running) => match running.due() {
                Some(action) => Request::Signal(action),
                None => Request::Idle,
            },
            Stage::Idle => Request::Idle,
        }
    }

    /// Carries out every request that the LED driver answers, one after the
    /// other, and returns the first that it does not answer.
    ///
    /// This is the stretch of a fault handler that needs nothing but the
    /// command channel: counting the LEDs when their driver is looked for, and
    /// turning LEDs on or off up to the next pause. A failed command is reported
    /// to the path like a successful one, and the path goes on. What is handed
    /// back is the runtime's to do: the status code, the timer, a pause, or
    /// idleness. The path then stands at that request and waits for its
    /// outcome.
    pub fn proceed<S: Syscalls>(&mut self) -> (request: Request)
        ensures
            request == final(self)@.request(),
            !request.for_leds(),
            final(self)@.wf(),
            exists|outcomes: Seq<Outcome>|
                #[trigger] old(self)@.answered_run::<S>(outcomes) && final(self)@ == old(
                    self,
                )@.run(outcomes),
            !old(self)@.request().for_leds() ==> final(self)@ == old(self)@,
    {
        let ghost begin = self@;
        let ghost mut history = Seq::<Outcome>::empty();
        loop
            invariant
                begin == old(self)@,
                begin.answered_run::<S>(history),
                self@ == begin.run(history),
                history.len() > 0 ==> begin.request().for_leds(),
            decreases self@.probing_leds(), self@.leds_before_pause(),
        {
            let request = self.request();
            match request.perform::<S>() {
                Some(outcome) => {
                    proof {
                        lemma_led_request_makes_progress(self@, outcome);
                        assert(history.push(outcome).drop_last() == history);
                        history = history.push(outcome);
                    }
                    self.advance(outcome);
                },
                None => {
                    return request;
                },
            }
        }
    }

    /// Moves on, given how the request that was due came back.
    pub fn advance(&mut self, outcome: Outcome)
        ensures
            final(self)@ == old(self)@.after(outcome),
            final(self)@.wf(),
    {
        let next = match &self.stage {
            Stage::Reporting => Stage::ProbingTimer { fault: Fault::Panic },
            Stage::ProbingTimer { fault } => {
                let timer = match outcome {
                    Outcome::Failed(_) => false,
                    _ => true,
                };
                Stage::ProbingLeds { fault: *fault, timer }
            },
            Stage::ProbingLeds { fault, timer } => match outcome {
                Outcome::Units(count) => {
                    if *timer {
                        Stage::Signaling(DiagnosticLoop::new(fault.pattern(), count))
                    } else {
                        Stage::Idle
                    }
                },
                _ => Stage::Idle,
            },
            Stage::Signaling(running) => {
                let mut running = *running;
                running.advance();
                Stage::Signaling(running)
            },
            Stage::Idle => Stage::Idle,
        };
        self.stage = next;
    }
}

/// Where the handler of `fault` stands after any history of outcomes.
///
/// * It opens with the status code if the fault has one, then looks for the
///   timer driver, then for the LED driver, whatever came back so far.
/// * If obtaining the timer did not fail and the LED driver named its LEDs, the
///   pattern of the fault runs from its beginning, and stands as many actions
///   on as outcomes have come in since. What those outcomes were makes no
///   difference: a failed action is followed by the same action as a
///   successful one.
/// * In every other case the handler is idle.
pub proof fn lemma_run(fault: Fault, outcomes: Seq<Outcome>)
    ensures
        ({
            let probe = fault.preamble();
            let reached = Stage::start(fault).run(outcomes);
            if outcomes.len() < probe {
                reached == Stage::<Cursor>::Reporting
            } else if outcomes.len() == probe {
                reached == (Stage::<Cursor>::ProbingTimer { fault })
            } else if outcomes.len() == probe + 1 {
                reached == (Stage::<Cursor>::ProbingLeds {
                    fault,
                    timer: !(outcomes[probe] is Failed),
                })
            } else if !(outcomes[probe] is Failed) && outcomes[probe + 1] is Units {
                reached == Stage::Signaling(
                    Cursor::start(fault.pattern(), outcomes[probe + 1]->Units_0 as nat).after(
                        (outcomes.len() - probe - 2) as nat,
                    ),
                )
            } else {
                reached == Stage::<Cursor>::Idle
            }
        }),
        Stage::start(fault).run(outcomes).wf(),
    decreases outcomes.len(),
{
    if outcomes.len() > 0 {
        let earlier = outcomes.drop_last();
        lemma_run(fault, earlier);
        let probe = fault.preamble();
        if outcomes.len() > probe + 2 && !(outcomes[probe] is Failed) && outcomes[probe + 1] is Units {
            let begin = Cursor::start(fault.pattern(), outcomes[probe + 1]->Units_0 as nat);
            lemma_after(begin, (earlier.len() - probe - 2) as nat);
        }
    }
}

/// Without both drivers the LEDs stay dark and the timer stays idle.
///
/// If an action of a diagnostic loop is due after some history, then that
/// history holds the two probes, obtaining the timer did not fail, and the LED
/// driver named its LEDs. So where either driver is missing, no history ever
/// leads to an LED being turned on or off, or to a pause.
pub proof fn lemma_signal_needs_both_drivers(fault: Fault, outcomes: Seq<Outcome>)
    requires
        Stage::start(fault).run(outcomes).request() is Signal,
    ensures
        outcomes.len() >= fault.preamble() + 2,
        !(outcomes[fault.preamble()] is Failed),
        outcomes[fault.preamble() + 1] is Units,
{
    lemma_run(fault, outcomes);
}

/// A missing driver ends the path in idleness, and idleness lasts.
///
/// Once both probes are in, if obtaining the timer failed or the LED driver did
/// not name its LEDs, the handler is idle and asks for nothing else, however
/// long the history grows.
pub proof fn lemma_missing_driver_idles(fault: Fault, outcomes: Seq<Outcome>)
    requires
        outcomes.len() >= fault.preamble() + 2,
        outcomes[fault.preamble()] is Failed || !(outcomes[fault.preamble() + 1] is Units),
    ensures
        Stage::start(fault).run(outcomes) is Idle,
        Stage::start(fault).run(outcomes).request() == Request::Idle,
{
    lemma_run(fault, outcomes);
}

/// A driver without LEDs is still a driver.
///
/// Counting the LEDs tells "none" from "no driver", and so does the path: with
/// the timer in hand, a driver that reports no LEDs starts the pattern, and a
/// driver that does not answer ends in idleness.
pub proof fn lemma_no_leds_is_not_no_driver(fault: Fault, code: ErrorCode)
    ensures
        Outcome::of_count(Ok(0)) != Outcome::of_count(Err(code)),
        (Stage::<Cursor>::ProbingLeds { fault, timer: true }).after(Outcome::of_count(Ok(0)))
            == Stage::Signaling(Cursor::start(fault.pattern(), 0)),
        (Stage::<Cursor>::ProbingLeds { fault, timer: true }).after(
            Outcome::of_count(Err(code)),
        ) == Stage::<Cursor>::Idle,
{
}

/// In a running pattern, an action on an LED is due exactly where LEDs are
/// left before the pause, and carrying it out leaves one fewer.
proof fn lemma_step_toward_pause(cursor: Cursor)
    requires
        cursor.wf(),
    ensures
        cursor.next().wf(),
        Stage::Signaling(cursor).request().for_leds() <==> Stage::Signaling(
            cursor,
        ).leds_before_pause() > 0,
        Stage::Signaling(cursor).leds_before_pause() > 0 ==> Stage::Signaling(
            cursor.next(),
        ).leds_before_pause() == Stage::Signaling(cursor).leds_before_pause() - 1,
{
    lemma_blink_cycle(cursor.count);
    lemma_cycle_pass(cursor.count);
}

/// A request that the LED driver answers brings the next one for the runtime
/// closer: either the driver has just been looked for, or one LED fewer is left
/// before the pause.
proof fn lemma_led_request_makes_progress(stage: Stage<Cursor>, outcome: Outcome)
    requires
        stage.wf(),
        stage.request().for_leds(),
    ensures
        stage.after(outcome).wf(),
        stage.after(outcome).probing_leds() < stage.probing_leds() || (stage.after(
            outcome,
        ).probing_leds() == stage.probing_leds() && stage.after(outcome).leds_before_pause()
            < stage.leds_before_pause()),
{
    if let Stage::Signaling(cursor) = stage {
        lemma_step_toward_pause(cursor);
    }
}

/// Between two pauses the LEDs have the pattern to themselves.
///
/// From any place in a running pattern, as many requests as LEDs are left
/// before the pause are actions on LEDs, whatever their outcomes, and the one
/// after them is not: it is the pause, or idleness where the pattern is empty.
pub proof fn lemma_leds_then_pause(stage: Stage<Cursor>, outcomes: Seq<Outcome>)
    requires
        stage is Signaling,
        stage.wf(),
        outcomes.len() <= stage.leds_before_pause(),
    ensures
        stage.run(outcomes) == Stage::Signaling(stage->Signaling_0.after(outcomes.len())),
        stage.run(outcomes).wf(),
        stage.run(outcomes).leds_before_pause() == stage.leds_before_pause() - outcomes.len(),
        stage.run(outcomes).request().for_leds() <==> outcomes.len() < stage.leds_before_pause(),
    decreases outcomes.len(),
{
    if outcomes.len() > 0 {
        let earlier = outcomes.drop_last();
        lemma_leds_then_pause(stage, earlier);
        lemma_step_toward_pause(stage.run(earlier)->Signaling_0);
    }
    lemma_step_toward_pause(stage.run(outcomes)->Signaling_0);
}

/// A history can be read from its first outcome on as well as from its last.
///
/// The stage that is reached through `outcomes` is the one that is reached
/// from the successor under the first outcome through the rest, and the LED
/// driver answered all of them exactly if it answered the first and then the
/// rest.
pub proof fn lemma_run_from_the_front<S: Syscalls>(stage: Stage<Cursor>, outcomes: Seq<Outcome>)
    requires
        outcomes.len() > 0,
    ensures
        stage.run(outcomes) == stage.after(outcomes[0]).run(outcomes.skip(1)),
        stage.answered_run::<S>(outcomes) <==> stage.request().answered::<S>(outcomes[0])
            && stage.after(outcomes[0]).answered_run::<S>(outcomes.skip(1)),
    decreases outcomes.len(),
{
    let earlier = outcomes.drop_last();
    let rest = outcomes.skip(1);
    let second = stage.after(outcomes[0]);
    if outcomes.len() == 1 {
        assert(stage.run(earlier) == stage);
        assert(stage.answered_run::<S>(earlier));
        assert(second.run(rest) == second);
        assert(second.answered_run::<S>(rest));
    } else {
        lemma_run_from_the_front::<S>(stage, earlier);
        assert(earlier.skip(1) == rest.drop_last());
        assert(second.run(rest) == second.run(rest.drop_last()).after(rest.last()));
        assert(second.answered_run::<S>(rest) <==> second.answered_run::<S>(rest.drop_last())
            && second.run(rest.drop_last()).request().answered::<S>(rest.last()));
    }
}

/// The LED driver answers no more requests in a row than LEDs are left before
/// the pause.
proof fn lemma_answered_run_is_short<S: Syscalls>(stage: Stage<Cursor>, outcomes: Seq<Outcome>)
    requires
        stage is Signaling,
        stage.wf(),
        stage.answered_run::<S>(outcomes),
    ensures
        outcomes.len() <= stage.leds_before_pause(),
    decreases outcomes.len(),
{
    if outcomes.len() > 0 {
        let earlier = outcomes.drop_last();
        lemma_answered_run_is_short::<S>(stage, earlier);
        lemma_leds_then_pause(stage, earlier);
    }
}

/// Where a running pattern stands once the LED driver has answered all it can.
///
/// If every request on the way through `outcomes` was answered by the LED
/// driver and the next one is not for it, then the outcomes are as many as LEDs
/// were left before the pause, and the pattern stands at that pause. This is
/// where [`FaultPath::proceed`] leaves a path that was within its pattern.
pub proof fn lemma_answered_run_ends_at_pause<S: Syscalls>(
    stage: Stage<Cursor>,
    outcomes: Seq<Outcome>,
)
    requires
        stage is Signaling,
        stage.wf(),
        stage.answered_run::<S>(outcomes),
        !stage.run(outcomes).request().for_leds(),
    ensures
        outcomes.len() == stage.leds_before_pause(),
        stage.run(outcomes) == Stage::Signaling(
            stage->Signaling_0.after(stage.leds_before_pause()),
        ),
{
    lemma_answered_run_is_short::<S>(stage, outcomes);
    lemma_leds_then_pause(stage, outcomes);
}

} // verus!

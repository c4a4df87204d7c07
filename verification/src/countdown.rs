//! A countdown to one power-off, or to one every week: what to do next, step
//! by step. The task itself never waits and never calls out; whoever drives
//! it performs each action and asks for the next.

use vstd::prelude::*;

use crate::calculator::SECONDS_PER_WEEK;
use crate::weekday::Weekday;

verus! {

/// Seconds between the warning and the power-off.
pub const WARNING_LEAD: u64 = 300;

/// What the driver of a countdown is to do next.
#[derive(Clone, Copy, Debug, PartialEq, Eq, Structural)]
pub enum Action {
    /// Wait for so many seconds.
    Sleep { seconds: u64 },
    /// Warn that the power-off is `WARNING_LEAD` seconds away.
    Warn,
    /// Power off.
    Shutdown,
    /// Nothing is left to do; the countdown is over.
    Finished,
}

/// Whether a countdown fires once or every week.
#[derive(Clone, Copy, Debug, PartialEq, Eq, Structural)]
pub enum Recurrence {
    /// One power-off, then the countdown is over.
    Once,
    /// A power-off every week, scheduled for the given weekday.
    Weekly(Weekday),
}

/// The actions of one cycle of a countdown of `delay` seconds, in order. A
/// delay above the warning lead is split by the warning; a shorter one runs
/// through without it.
pub open spec fn cycle(delay: u64) -> Seq<Action> {
    if delay > WARNING_LEAD {
        seq![
            Action::Sleep { seconds: (delay - WARNING_LEAD) as u64 },
            Action::Warn,
            Action::Sleep { seconds: WARNING_LEAD },
            Action::Shutdown,
        ]
    } else {
        seq![Action::Sleep { seconds: delay }, Action::Shutdown]
    }
}

/// Seconds that the actions `s` wait, all together.
pub open spec fn seconds_slept(s: Seq<Action>) -> int
    decreases s.len(),
{
    if s.len() == 0 {
        0
    } else {
        seconds_slept(s.drop_last()) + match s.last() {
            Action::Sleep { seconds } => seconds as int,
            _ => 0,
        }
    }
}

/// How often `a` stands in `s`.
pub open spec fn occurrences(s: Seq<Action>, a: Action) -> int
    decreases s.len(),
{
    if s.len() == 0 {
        0
    } else {
        occurrences(s.drop_last(), a) + if s.last() == a {
            1int
        } else {
            0int
        }
    }
}

/// What a countdown stands for: the delay of its current cycle, whether it
/// recurs, and how many actions of the cycle have been handed out.
pub struct CountdownState {
    pub delay: u64,
    pub recurrence: Recurrence,
    pub step: int,
}

impl CountdownState {
    /// A countdown that has not handed out any action yet.
    pub open spec fn fresh(delay: u64, recurrence: Recurrence) -> CountdownState {
        CountdownState { delay, recurrence, step: 0 }
    }

    /// The step lies within the cycle, or just behind it for a countdown that
    /// is over; one that recurs is never over.
    pub open spec fn valid(self) -> bool {
        &&& 0 <= self.step <= cycle(self.delay).len()
        &&& self.recurrence is Weekly ==> self.step < cycle(self.delay).len()
    }

    /// Whether every action was handed out and none will follow.
    pub open spec fn finished(self) -> bool {
        self.step >= cycle(self.delay).len()
    }

    /// The action that is handed out next.
    pub open spec fn next_action(self) -> Action {
        if self.finished() {
            Action::Finished
        } else {
            cycle(self.delay)[self.step]
        }
    }

    /// The countdown after its next action was handed out. Behind the
    /// power-off, a weekly countdown starts a new cycle of one week; any
    /// other is over and stays so.
    pub open spec fn after_step(self) -> CountdownState {
        if self.finished() {
            self
        } else if self.step + 1 < cycle(self.delay).len() {
            CountdownState { step: self.step + 1, ..self }
        } else if self.recurrence is Weekly {
            CountdownState { delay: SECONDS_PER_WEEK, step: 0, ..self }
        } else {
            CountdownState { step: self.step + 1, ..self }
        }
    }

    /// The countdown after `n` actions were handed out.
    pub open spec fn after_steps(self, n: nat) -> CountdownState
        decreases n,
    {
        if n == 0 {
            self
        } else {
            self.after_step().after_steps((n - 1) as nat)
        }
    }

    /// The next `n` actions, in order.
    pub open spec fn trace(self, n: nat) -> Seq<Action>
        decreases n,
    {
        if n == 0 {
            Seq::<Action>::empty()
        } else {
            seq![self.next_action()] + self.after_step().trace((n - 1) as nat)
        }
    }
}

/// A countdown: it hands out, one at a time, the waits, the warning and the
/// power-off of a delay, and for a weekly countdown those of every following
/// week.
#[derive(Clone, Copy, Debug, PartialEq, Eq, Structural)]
pub struct CountdownTask {
    delay: u64,
    recurrence: Recurrence,
    step: u8,
}

impl View for CountdownTask {
    type V = CountdownState;

    closed spec fn view(&self) -> CountdownState {
        CountdownState { delay: self.delay, recurrence: self.recurrence, step: self.step as int }
    }
}

impl CountdownTask {
    #[verifier::type_invariant]
    closed spec fn valid(self) -> bool {
        self@.valid()
    }

    /// A countdown of `delay` seconds to a single power-off.
    pub fn one_shot(delay: u64) -> (task: CountdownTask)
        ensures
            task@ == CountdownState::fresh(delay, Recurrence::Once),
            task@.valid(),
    {
        CountdownTask { delay, recurrence: Recurrence::Once, step: 0 }
    }

    /// A countdown of `delay` seconds to the first power-off of a weekly
    /// series for `weekday`.
    pub fn weekly(weekday: Weekday, delay: u64) -> (task: CountdownTask)
        ensures
            task@ == CountdownState::fresh(delay, Recurrence::Weekly(weekday)),
            task@.valid(),
    {
        CountdownTask { delay, recurrence: Recurrence::Weekly(weekday), step: 0 }
    }

    /// Seconds of the current cycle, from its start to its power-off.
    pub fn delay(&self) -> (d: u64)
        ensures
            d == self@.delay,
    {
        self.delay
    }

    /// Whether the countdown fires once or every week, and for which day.
    pub fn recurrence(&self) -> (r: Recurrence)
        ensures
            r == self@.recurrence,
    {
        self.recurrence
    }

    /// Whether the countdown fires every week.
    pub fn is_recurring(&self) -> (b: bool)
        ensures
            b == (self@.recurrence is Weekly),
    {
        match self.recurrence {
            Recurrence::Once => false,
            Recurrence::Weekly(_) => true,
        }
    }

    /// Whether the countdown is over. A weekly countdown never is.
    pub fn is_finished(&self) -> (b: bool)
        ensures
            b == self@.finished(),
            self@.valid(),
            self@.recurrence is Weekly ==> !b,
    {
        proof {
            use_type_invariant(self);
        }
        if self.delay > WARNING_LEAD {
            self.step >= 4
        } else {
            self.step >= 2
        }
    }

    /// Hands out the next action and moves on.
    ///
    /// A cycle of more than `WARNING_LEAD` seconds is: wait for all but the
    /// last `WARNING_LEAD` seconds, warn, wait `WARNING_LEAD` seconds, power
    /// off. A shorter cycle is: wait, power off. After the power-off a weekly
    /// countdown begins a cycle of one week; a one-shot countdown is over,
    /// and hands out `Action::Finished` from then on.
    pub fn advance(&mut self) -> (action: Action)
        ensures
            action == old(self)@.next_action(),
            final(self)@ == old(self)@.after_step(),
            old(self)@.valid(),
            final(self)@.valid(),
    {
        proof {
            use_type_invariant(&*self);
        }
        let long: bool = self.delay > WARNING_LEAD;
        let length: u8 = if long {
            4
        } else {
            2
        };
        if self.step >= length {
            return Action::Finished;
        }
        let action = if long {
            if self.step == 0 {
                Action::Sleep { seconds: self.delay - WARNING_LEAD }
            } else if self.step == 1 {
                Action::Warn
            } else if self.step == 2 {
                Action::Sleep { seconds: WARNING_LEAD }
            } else {
                Action::Shutdown
            }
        } else {
            if self.step == 0 {
                Action::Sleep { seconds: self.delay }
            } else {
                Action::Shutdown
            }
        };
        let recurring: bool = self.is_recurring();
        if self.step + 1 < length || !recurring {
            *self = CountdownTask {
                delay: self.delay,
                recurrence: self.recurrence,
                step: self.step + 1,
            };
        } else {
            *self = CountdownTask {
                delay: SECONDS_PER_WEEK,
                recurrence: self.recurrence,
                step: 0,
            };
        }
        action
    }
}

/// Two countdowns that stand for the same state are the same.
pub proof fn lemma_state_determines_task(a: CountdownTask, b: CountdownTask)
    requires
        a@ == b@,
    ensures
        a == b,
{
}

/// One cycle waits for exactly the delay, whether it is split by the warning
/// or not.
pub proof fn lemma_cycle_sleeps_for_delay(delay: u64)
    ensures
        seconds_slept(cycle(delay)) == delay,
{
    reveal_with_fuel(seconds_slept, 5);
    let c = cycle(delay);
    if delay > WARNING_LEAD {
        let c3 = c.drop_last();
        let c2 = c3.drop_last();
        let c1 = c2.drop_last();
        assert(c1.drop_last().len() == 0);
        assert(seconds_slept(c1) == delay - WARNING_LEAD);
        assert(seconds_slept(c2) == delay - WARNING_LEAD);
        assert(seconds_slept(c3) == delay);
    } else {
        let c1 = c.drop_last();
        assert(c1.drop_last().len() == 0);
        assert(seconds_slept(c1) == delay);
    }
}

/// One cycle powers off exactly once, as its last action. It warns exactly
/// once if the delay is above the warning lead, and then exactly
/// `WARNING_LEAD` seconds of waiting lie between the warning and the
/// power-off; with a delay at or below the lead it never warns.
pub proof fn lemma_cycle_warns_and_powers_off(delay: u64)
    ensures
        occurrences(cycle(delay), Action::Shutdown) == 1,
        cycle(delay).last() == Action::Shutdown,
        occurrences(cycle(delay), Action::Finished) == 0,
        delay > WARNING_LEAD ==> occurrences(cycle(delay), Action::Warn) == 1,
        delay > WARNING_LEAD ==> cycle(delay)[1] == Action::Warn && seconds_slept(
            cycle(delay).subrange(1, 4),
        ) == WARNING_LEAD,
        delay <= WARNING_LEAD ==> occurrences(cycle(delay), Action::Warn) == 0,
{
    reveal_with_fuel(occurrences, 5);
    reveal_with_fuel(seconds_slept, 5);
    let c = cycle(delay);
    if delay > WARNING_LEAD {
        let c3 = c.drop_last();
        let c2 = c3.drop_last();
        let c1 = c2.drop_last();
        assert(c1.drop_last().len() == 0);
        assert(occurrences(c1, Action::Shutdown) == 0);
        assert(occurrences(c2, Action::Shutdown) == 0);
        assert(occurrences(c3, Action::Shutdown) == 0);
        assert(occurrences(c1, Action::Warn) == 0);
        assert(occurrences(c2, Action::Warn) == 1);
        assert(occurrences(c3, Action::Warn) == 1);
        assert(occurrences(c1, Action::Finished) == 0);
        assert(occurrences(c2, Action::Finished) == 0);
        assert(occurrences(c3, Action::Finished) == 0);
        let t = c.subrange(1, 4);
        let t2 = t.drop_last();
        let t1 = t2.drop_last();
        assert(t1.drop_last().len() == 0);
        assert(seconds_slept(t1) == 0);
        assert(seconds_slept(t2) == WARNING_LEAD);
    } else {
        let c1 = c.drop_last();
        assert(c1.drop_last().len() == 0);
        assert(occurrences(c1, Action::Shutdown) == 0);
        assert(occurrences(c1, Action::Warn) == 0);
        assert(occurrences(c1, Action::Finished) == 0);
    }
}

/// From its start, a countdown hands out the actions of its cycle, one after
/// the other. Behind them a weekly countdown stands at the start of a cycle
/// of one week, and any other is over.
pub proof fn lemma_fresh_runs_its_cycle(delay: u64, recurrence: Recurrence)
    ensures
        CountdownState::fresh(delay, recurrence).trace(cycle(delay).len()) == cycle(delay),
        recurrence is Weekly ==> CountdownState::fresh(delay, recurrence).after_steps(
            cycle(delay).len(),
        ) == CountdownState::fresh(SECONDS_PER_WEEK, recurrence),
        recurrence is Once ==> CountdownState::fresh(delay, recurrence).after_steps(
            cycle(delay).len(),
        ).finished(),
{
    reveal_with_fuel(CountdownState::trace, 5);
    reveal_with_fuel(CountdownState::after_steps, 5);
    let start = CountdownState::fresh(delay, recurrence);
    assert(start.trace(cycle(delay).len()) =~= cycle(delay));
}

/// A countdown that is over stays over, and hands out nothing but
/// `Action::Finished`.
pub proof fn lemma_finished_stays_finished(state: CountdownState, n: nat)
    requires
        state.finished(),
    ensures
        state.after_steps(n) == state,
        forall|i: int| 0 <= i < n ==> state.trace(n)[i] == Action::Finished,
        state.trace(n).len() == n,
    decreases n,
{
    if n > 0 {
        lemma_finished_stays_finished(state, (n - 1) as nat);
        let rest = state.trace((n - 1) as nat);
        assert forall|i: int| 0 <= i < n implies state.trace(n)[i] == Action::Finished by {
            if i > 0 {
                assert(state.trace(n)[i] == rest[i - 1]);
            }
        }
    }
}

/// Every step keeps a countdown valid, and a weekly countdown is never over:
/// behind each power-off it has a next action.
pub proof fn lemma_step_keeps_valid(state: CountdownState)
    requires
        state.valid(),
    ensures
        state.after_step().valid(),
        state.after_step().recurrence == state.recurrence,
        state.recurrence is Weekly ==> !state.finished() && state.next_action() != Action::Finished,
        state.next_action() == Action::Shutdown && state.recurrence is Weekly
            ==> state.after_step() == CountdownState::fresh(SECONDS_PER_WEEK, state.recurrence),
        state.next_action() == Action::Shutdown && state.recurrence is Once
            ==> state.after_step().finished(),
{
}

} // verus!

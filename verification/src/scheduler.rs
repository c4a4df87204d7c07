//! The scheduler: it turns a weekly schedule into one weekly countdown for
//! each day that is scheduled, and a time entered by hand into a one-shot
//! countdown, of which it keeps a record. It starts nothing itself: the
//! countdowns it hands back are for the caller to drive.

use vstd::prelude::*;
use vstd::string::*;

use crate::calculator::{
    delay_until_spec, delay_until_text, delay_until_weekday_spec, delay_until_weekday_text,
    lemma_delay_until_weekday_bounds, Moment, WeekInstant,
};
use crate::countdown::{CountdownState, CountdownTask, Recurrence};
use crate::editor::{is_clean, lemma_clock_text_is_tight};
use crate::registry::{ManualTask, ManualTaskRecord, TaskRegistry};
use crate::schedule::{inactive_schedule, Diagnostic, Schedule};
use crate::text::{is_blank, text_is_blank, trim_text, trimmed};
use crate::time_of_day::{parse_clock_text, ParseError};
use crate::weekday::Weekday;

verus! {

/// What a list of countdowns stands for, one by one.
pub open spec fn task_states(tasks: Seq<CountdownTask>) -> Seq<CountdownState> {
    Seq::new(tasks.len(), |i: int| tasks[i]@)
}

/// The countdown that the text `text` scheduled for `day` calls for at the
/// moment `now`: none if the text is blank or no time of day, else a weekly
/// countdown to the next occurrence of that time on that day.
pub open spec fn planned_task(text: Seq<char>, day: Weekday, now: WeekInstant) -> Option<
    CountdownState,
> {
    if is_blank(text) {
        None
    } else {
        match parse_clock_text(text) {
            Ok(reading) => Some(
                CountdownState::fresh(
                    delay_until_weekday_spec(reading, day, now) as u64,
                    Recurrence::Weekly(day),
                ),
            ),
            Err(_) => None,
        }
    }
}

/// The note that the text `text` scheduled for `day` calls for: one if the
/// text is not blank and no time of day, else none.
pub open spec fn skipped_note(text: Seq<char>, day: Weekday) -> Option<Diagnostic> {
    if is_blank(text) {
        None
    } else {
        match parse_clock_text(text) {
            Ok(_) => None,
            Err(reason) => Some(Diagnostic::InvalidTime { day, reason }),
        }
    }
}

/// The countdowns that the first `upto` days of `schedule` call for at the
/// moment `now`, Monday first.
pub open spec fn planned_tasks(schedule: Seq<Seq<char>>, now: WeekInstant, upto: int) -> Seq<
    CountdownState,
>
    decreases upto,
{
    if upto <= 0 {
        Seq::<CountdownState>::empty()
    } else {
        let before = planned_tasks(schedule, now, upto - 1);
        match planned_task(schedule[upto - 1], Weekday::spec_from_index(upto - 1), now) {
            Some(task) => before.push(task),
            None => before,
        }
    }
}

/// The notes that the first `upto` days of `schedule` call for, Monday
/// first.
pub open spec fn skipped_notes(schedule: Seq<Seq<char>>, upto: int) -> Seq<Diagnostic>
    decreases upto,
{
    if upto <= 0 {
        Seq::<Diagnostic>::empty()
    } else {
        let before = skipped_notes(schedule, upto - 1);
        match skipped_note(schedule[upto - 1], Weekday::spec_from_index(upto - 1)) {
            Some(note) => before.push(note),
            None => before,
        }
    }
}

/// What came of activating a schedule: the countdowns to start, and a note
/// for each day that was skipped.
#[derive(Debug)]
pub struct Activation {
    pub tasks: Vec<CountdownTask>,
    pub diagnostics: Vec<Diagnostic>,
}

/// The scheduler, with its log of the countdowns that were started by hand.
#[derive(Debug)]
pub struct Scheduler {
    registry: TaskRegistry,
}

impl View for Scheduler {
    type V = Seq<ManualTaskRecord>;

    /// The log of manual tasks, oldest first.
    closed spec fn view(&self) -> Seq<ManualTaskRecord> {
        self.registry@
    }
}

impl Scheduler {
    /// A scheduler that has recorded nothing.
    pub fn new() -> (scheduler: Scheduler)
        ensures
            scheduler@ == Seq::<ManualTaskRecord>::empty(),
    {
        Scheduler { registry: TaskRegistry::new() }
    }

    /// The log of the countdowns that were started by hand.
    pub fn registry(&self) -> (registry: &TaskRegistry)
        ensures
            registry@ == self@,
    {
        &self.registry
    }

    /// Plans the weekly countdowns of `schedule` as of `now`.
    ///
    /// For each weekday, Monday first, whose text is not blank: if the text
    /// is a time of day, a weekly countdown to its next occurrence on that
    /// day is handed back; if not, the day is skipped and a note says why.
    /// The other days go on either way. Nothing is recorded in the log, and
    /// nothing is known here of countdowns planned before: planning twice
    /// gives two sets.
    pub fn activate(&self, schedule: &Schedule, now: &Moment) -> (activation: Activation)
        ensures
            task_states(activation.tasks@) == planned_tasks(schedule@, now@, 7),
            activation.tasks@.len() == planned_tasks(schedule@, now@, 7).len(),
            activation.diagnostics@ == skipped_notes(schedule@, 7),
    {
        let mut tasks: Vec<CountdownTask> = Vec::new();
        let mut diagnostics: Vec<Diagnostic> = Vec::new();
        let mut i: u8 = 0;
        assert(task_states(tasks@) =~= planned_tasks(schedule@, now@, 0));
        while i < 7
            invariant
                i <= 7,
                task_states(tasks@) == planned_tasks(schedule@, now@, i as int),
                diagnostics@ == skipped_notes(schedule@, i as int),
            decreases 7 - i,
        {
            let day = match Weekday::from_index(i) {
                Some(d) => d,
                None => Weekday::Sunday,
            };
            let text = schedule.time_text(day);
            if !text_is_blank(text) {
                match delay_until_weekday_text(text, day, now) {
                    Ok(delay) => {
                        let ghost before = task_states(tasks@);
                        let task = CountdownTask::weekly(day, delay);
                        tasks.push(task);
                        assert(task_states(tasks@) =~= before.push(task@));
                    },
                    Err(reason) => {
                        diagnostics.push(Diagnostic::InvalidTime { day, reason });
                    },
                }
            }
            i += 1;
        }
        Activation { tasks, diagnostics }
    }

    /// Plans a one-shot countdown to the next time the clock shows
    /// `time_text`, as of `now`.
    ///
    /// If `time_text` is a time of day, the countdown is handed back, and
    /// the text and the delay are added to the log. If not, the reason is
    /// handed back, and the log stays as it was. The text is taken as it is:
    /// blanks around it are not removed.
    pub fn schedule_manual(&mut self, time_text: &str, now: &Moment) -> (planned: Result<
        CountdownTask,
        ParseError,
    >)
        ensures
            match parse_clock_text(time_text@) {
                Ok(reading) => {
                    &&& planned is Ok
                    &&& planned->Ok_0@ == CountdownState::fresh(
                        delay_until_spec(reading, now@) as u64,
                        Recurrence::Once,
                    )
                    &&& final(self)@ == old(self)@.push(
                        ManualTaskRecord {
                            time_text: time_text@,
                            delay: delay_until_spec(reading, now@),
                        },
                    )
                },
                Err(reason) => {
                    &&& planned == Err::<CountdownTask, ParseError>(reason)
                    &&& final(self)@ == old(self)@
                },
            },
    {
        match delay_until_text(time_text, now) {
            Ok(delay) => {
                self.registry.record(ManualTask { time_text: time_text.to_owned(), delay });
                Ok(CountdownTask::one_shot(delay))
            },
            Err(reason) => Err(reason),
        }
    }

    /// Plans the weekly countdowns of `schedule` as of the present moment on
    /// the local clock, and hands back that moment with them.
    pub fn activate_now(&self, schedule: &Schedule) -> (planned: (Moment, Activation))
        ensures
            planned.0@.in_range(),
            task_states(planned.1.tasks@) == planned_tasks(schedule@, planned.0@, 7),
            planned.1.tasks@.len() == planned_tasks(schedule@, planned.0@, 7).len(),
            planned.1.diagnostics@ == skipped_notes(schedule@, 7),
    {
        let now = Moment::now_local();
        let activation = self.activate(schedule, &now);
        (now, activation)
    }

    /// Plans a one-shot countdown to the next time the local clock shows
    /// `time_text`, as of the present moment, and hands back that moment
    /// with it.
    pub fn schedule_manual_now(&mut self, time_text: &str) -> (planned: (
        Moment,
        Result<CountdownTask, ParseError>,
    ))
        ensures
            planned.0@.in_range(),
            match parse_clock_text(time_text@) {
                Ok(reading) => {
                    &&& planned.1 is Ok
                    &&& planned.1->Ok_0@ == CountdownState::fresh(
                        delay_until_spec(reading, planned.0@) as u64,
                        Recurrence::Once,
                    )
                    &&& final(self)@ == old(self)@.push(
                        ManualTaskRecord {
                            time_text: time_text@,
                            delay: delay_until_spec(reading, planned.0@),
                        },
                    )
                },
                Err(reason) => {
                    &&& planned.1 == Err::<CountdownTask, ParseError>(reason)
                    &&& final(self)@ == old(self)@
                },
            },
    {
        let now = Moment::now_local();
        let planned = self.schedule_manual(time_text, &now);
        (now, planned)
    }

    /// Plans a one-shot countdown from a text as it was typed in, as of
    /// `now`.
    ///
    /// The time is read from `entered` without the white space around it.
    /// If that is a time of day, the countdown to its next occurrence is
    /// handed back, and `entered`, as it was typed, is added to the log with
    /// the delay. If not, the reason is handed back, and the log stays as it
    /// was.
    pub fn schedule_manual_entered(&mut self, entered: &str, now: &Moment) -> (planned: Result<
        CountdownTask,
        ParseError,
    >)
        ensures
            match parse_clock_text(trimmed(entered@)) {
                Ok(reading) => {
                    &&& planned is Ok
                    &&& planned->Ok_0@ == CountdownState::fresh(
                        delay_until_spec(reading, now@) as u64,
                        Recurrence::Once,
                    )
                    &&& final(self)@ == old(self)@.push(
                        ManualTaskRecord {
                            time_text: entered@,
                            delay: delay_until_spec(reading, now@),
                        },
                    )
                },
                Err(reason) => {
                    &&& planned == Err::<CountdownTask, ParseError>(reason)
                    &&& final(self)@ == old(self)@
                },
            },
    {
        match delay_until_text(trim_text(entered), now) {
            Ok(delay) => {
                self.registry.record(ManualTask { time_text: entered.to_owned(), delay });
                Ok(CountdownTask::one_shot(delay))
            },
            Err(reason) => Err(reason),
        }
    }
}

/// A text that is a time of day has no white space around it. So on every
/// text that `schedule_manual` takes, `schedule_manual_entered` reads the
/// same time, plans the same countdown and records the same.
pub proof fn lemma_entered_agrees_on_times_of_day(text: Seq<char>)
    requires
        parse_clock_text(text) is Ok,
    ensures
        trimmed(text) == text,
        parse_clock_text(trimmed(text)) == parse_clock_text(text),
{
    lemma_clock_text_is_tight(text);
}

/// A schedule on which no day is active calls for no countdown and no note,
/// at any moment. So does the schedule that `inactive_schedule` names.
pub proof fn lemma_inactive_plans_nothing(schedule: Seq<Seq<char>>, now: WeekInstant)
    requires
        forall|i: int| 0 <= i < 7 ==> is_blank(#[trigger] schedule[i]),
    ensures
        planned_tasks(schedule, now, 7) == Seq::<CountdownState>::empty(),
        skipped_notes(schedule, 7) == Seq::<Diagnostic>::empty(),
        planned_tasks(inactive_schedule(), now, 7) == Seq::<CountdownState>::empty(),
        skipped_notes(inactive_schedule(), 7) == Seq::<Diagnostic>::empty(),
{
    lemma_blank_days_plan_nothing(schedule, now, 7);
    lemma_blank_days_plan_nothing(inactive_schedule(), now, 7);
}

/// As long as the first `upto` days are blank, they call for nothing.
pub proof fn lemma_blank_days_plan_nothing(schedule: Seq<Seq<char>>, now: WeekInstant, upto: int)
    requires
        upto <= 7,
        forall|i: int| 0 <= i < upto ==> is_blank(#[trigger] schedule[i]),
    ensures
        planned_tasks(schedule, now, upto) == Seq::<CountdownState>::empty(),
        skipped_notes(schedule, upto) == Seq::<Diagnostic>::empty(),
    decreases upto,
{
    if upto > 0 {
        lemma_blank_days_plan_nothing(schedule, now, upto - 1);
        assert(is_blank(schedule[upto - 1]));
    }
}

/// Each day calls for at most one of the two, a countdown or a note, and for
/// neither exactly when it is blank. So countdowns and notes together are
/// never more than the days looked at, and never more than seven.
pub proof fn lemma_one_outcome_per_day(schedule: Seq<Seq<char>>, now: WeekInstant, upto: int)
    requires
        0 <= upto <= 7,
    ensures
        planned_tasks(schedule, now, upto).len() + skipped_notes(schedule, upto).len() <= upto,
        forall|i: int|
            0 <= i < 7 ==> (is_blank(#[trigger] schedule[i]) <==> planned_task(
                schedule[i],
                Weekday::spec_from_index(i),
                now,
            ) is None && skipped_note(schedule[i], Weekday::spec_from_index(i)) is None),
        forall|i: int|
            0 <= i < 7 ==> !(planned_task(#[trigger] schedule[i], Weekday::spec_from_index(i), now)
                is Some && skipped_note(schedule[i], Weekday::spec_from_index(i)) is Some),
    decreases upto,
{
    if upto > 0 {
        lemma_one_outcome_per_day(schedule, now, upto - 1);
    }
}

/// A schedule in which every day holds the empty text or a time of day, as
/// every schedule read back from the edit form does, calls for no note.
pub proof fn lemma_clean_schedule_has_no_notes(schedule: Seq<Seq<char>>, upto: int)
    requires
        is_clean(schedule),
        0 <= upto <= 7,
    ensures
        skipped_notes(schedule, upto) == Seq::<Diagnostic>::empty(),
    decreases upto,
{
    if upto > 0 {
        lemma_clean_schedule_has_no_notes(schedule, upto - 1);
        let text = schedule[upto - 1];
        if text.len() == 0 {
            assert(is_blank(text));
        }
    }
}

/// Every countdown that is planned from a schedule is weekly, stands at its
/// start, and is due within one week, never at once.
pub proof fn lemma_planned_tasks_are_weekly(schedule: Seq<Seq<char>>, now: WeekInstant, upto: int)
    requires
        now.in_range(),
        0 <= upto <= 7,
    ensures
        forall|k: int|
            0 <= k < planned_tasks(schedule, now, upto).len() ==> {
                let task = #[trigger] planned_tasks(schedule, now, upto)[k];
                &&& task.recurrence is Weekly
                &&& task.step == 0
                &&& task.valid()
                &&& 0 < task.delay <= 604800
            },
    decreases upto,
{
    if upto > 0 {
        lemma_planned_tasks_are_weekly(schedule, now, upto - 1);
        let text = schedule[upto - 1];
        let day = Weekday::spec_from_index(upto - 1);
        if planned_task(text, day, now) is Some {
            let reading = parse_clock_text(text)->Ok_0;
            lemma_delay_until_weekday_bounds(reading, day, now);
        }
    }
}

} // verus!

use shutdown_scheduler::calculator::{delay_until, Moment};
use shutdown_scheduler::countdown::{Action, CountdownTask, Recurrence};
use shutdown_scheduler::registry::{ManualTask, TaskRegistry};
use shutdown_scheduler::schedule::{Diagnostic, Schedule, StoredEntry};
use shutdown_scheduler::scheduler::Scheduler;
use shutdown_scheduler::time_of_day::{ParseError, TimeOfDay};
use shutdown_scheduler::weekday::Weekday;

fn monday_at_ten() -> Moment {
    Moment::at(Weekday::Monday, 10, 0, 0).unwrap()
}

fn manual(text: &str, delay: u64) -> ManualTask {
    ManualTask { time_text: text.to_string(), delay }
}

#[test]
fn activating_an_empty_schedule_spawns_nothing() {
    let scheduler = Scheduler::new();
    let activation = scheduler.activate(&Schedule::inactive(), &monday_at_ten());
    assert!(activation.tasks.is_empty());
    assert!(activation.diagnostics.is_empty());
    assert!(scheduler.registry().is_empty());
    assert_eq!(scheduler.registry().len(), 0);
}

#[test]
fn activating_a_schedule_of_blanks_spawns_nothing() {
    let mut schedule = Schedule::inactive();
    schedule.set_time_text(Weekday::Monday, " ".to_string());
    schedule.set_time_text(Weekday::Friday, "\t\n".to_string());
    let scheduler = Scheduler::new();
    let activation = scheduler.activate(&schedule, &monday_at_ten());
    assert!(activation.tasks.is_empty());
    assert!(activation.diagnostics.is_empty());
    assert!(scheduler.registry().is_empty());
}

#[test]
fn activating_plans_one_weekly_task_per_scheduled_day() {
    let mut schedule = Schedule::inactive();
    schedule.set_time_text(Weekday::Monday, "09:00".to_string());
    schedule.set_time_text(Weekday::Tuesday, "09:00".to_string());
    schedule.set_time_text(Weekday::Wednesday, "09:00".to_string());
    schedule.set_time_text(Weekday::Sunday, "12:00".to_string());
    let scheduler = Scheduler::new();
    let activation = scheduler.activate(&schedule, &monday_at_ten());
    assert!(activation.diagnostics.is_empty());
    assert_eq!(
        activation.tasks,
        vec![
            CountdownTask::weekly(Weekday::Monday, 7 * 86400 - 3600),
            CountdownTask::weekly(Weekday::Tuesday, 86400 - 3600),
            CountdownTask::weekly(Weekday::Wednesday, 2 * 86400 - 3600),
            CountdownTask::weekly(Weekday::Sunday, 6 * 86400 + 7200),
        ]
    );
    assert!(scheduler.registry().is_empty());
}

#[test]
fn activating_skips_bad_entries_and_goes_on() {
    let mut schedule = Schedule::inactive();
    schedule.set_time_text(Weekday::Monday, "25:00".to_string());
    schedule.set_time_text(Weekday::Tuesday, "11:00".to_string());
    schedule.set_time_text(Weekday::Thursday, "soon".to_string());
    schedule.set_time_text(Weekday::Friday, " 08:00".to_string());
    schedule.set_time_text(Weekday::Saturday, "08:00".to_string());
    let scheduler = Scheduler::new();
    let activation = scheduler.activate(&schedule, &monday_at_ten());
    assert_eq!(
        activation.diagnostics,
        vec![
            Diagnostic::InvalidTime { day: Weekday::Monday, reason: ParseError::OutOfRange },
            Diagnostic::InvalidTime { day: Weekday::Thursday, reason: ParseError::Malformed },
            Diagnostic::InvalidTime { day: Weekday::Friday, reason: ParseError::Malformed },
        ]
    );
    assert_eq!(
        activation.tasks,
        vec![
            CountdownTask::weekly(Weekday::Tuesday, 86400 + 3600),
            CountdownTask::weekly(Weekday::Saturday, 5 * 86400 - 7200),
        ]
    );
}

#[test]
fn activating_twice_gives_two_independent_sets() {
    let mut schedule = Schedule::inactive();
    schedule.set_time_text(Weekday::Wednesday, "09:00".to_string());
    let scheduler = Scheduler::new();
    let mut first = scheduler.activate(&schedule, &monday_at_ten());
    let second = scheduler.activate(&schedule, &monday_at_ten());
    assert_eq!(first.tasks, second.tasks);
    assert_eq!(first.tasks[0].advance(), Action::Sleep { seconds: 169200 - 300 });
    assert_eq!(second.tasks, vec![CountdownTask::weekly(Weekday::Wednesday, 169200)]);
}

#[test]
fn activating_a_stored_schedule_from_end_to_end() {
    let entries = vec![
        StoredEntry { day: "Wednesday".to_string(), times: vec!["09:00".to_string()] },
        StoredEntry { day: "Someday".to_string(), times: vec!["10:00".to_string()] },
        StoredEntry { day: "Friday".to_string(), times: vec!["1O:OO".to_string()] },
    ];
    let (schedule, load_notes) = Schedule::from_stored(&entries);
    assert_eq!(load_notes, vec![Diagnostic::UnknownWeekday { entry: 1 }]);
    let activation = Scheduler::new().activate(&schedule, &monday_at_ten());
    assert_eq!(activation.tasks, vec![CountdownTask::weekly(Weekday::Wednesday, 169200)]);
    assert_eq!(
        activation.diagnostics,
        vec![Diagnostic::InvalidTime { day: Weekday::Friday, reason: ParseError::Malformed }]
    );
}

#[test]
fn schedule_manual_rejects_25_00_and_leaves_the_registry() {
    let mut scheduler = Scheduler::new();
    let result = scheduler.schedule_manual("25:00", &monday_at_ten());
    assert_eq!(result, Err(ParseError::OutOfRange));
    assert!(scheduler.registry().is_empty());
    assert_eq!(scheduler.registry().list(), Vec::new());

    let ok = scheduler.schedule_manual("12:00", &monday_at_ten());
    assert!(ok.is_ok());
    let again = scheduler.schedule_manual("25:00", &monday_at_ten());
    assert_eq!(again, Err(ParseError::OutOfRange));
    assert_eq!(scheduler.registry().list(), vec![manual("12:00", 7200)]);
}

#[test]
fn schedule_manual_rejects_malformed_text() {
    let mut scheduler = Scheduler::new();
    for text in ["", "noon", "7:30", " 07:30", "07:30 ", "0730"] {
        assert_eq!(scheduler.schedule_manual(text, &monday_at_ten()), Err(ParseError::Malformed));
    }
    assert!(scheduler.registry().is_empty());
}

#[test]
fn schedule_manual_plans_a_one_shot_and_records_it() {
    let mut scheduler = Scheduler::new();
    let task = scheduler.schedule_manual("12:00", &monday_at_ten()).unwrap();
    assert_eq!(task, CountdownTask::one_shot(7200));
    assert_eq!(task.recurrence(), Recurrence::Once);
    assert_eq!(scheduler.registry().len(), 1);
    assert_eq!(scheduler.registry().get(0), Some(&manual("12:00", 7200)));
    assert_eq!(scheduler.registry().get(1), None);
}

#[test]
fn schedule_manual_rolls_an_elapsed_time_to_tomorrow() {
    let mut scheduler = Scheduler::new();
    let task = scheduler.schedule_manual("09:00", &monday_at_ten()).unwrap();
    assert_eq!(task, CountdownTask::one_shot(82800));
    let same_minute = scheduler.schedule_manual("10:00", &monday_at_ten()).unwrap();
    assert_eq!(same_minute.delay(), 86400);
}

#[test]
fn entered_text_is_read_without_its_blanks_and_recorded_as_typed() {
    let mut scheduler = Scheduler::new();
    let task = scheduler.schedule_manual_entered("  12:00 \t", &monday_at_ten()).unwrap();
    assert_eq!(task, CountdownTask::one_shot(7200));
    let task = scheduler.schedule_manual_entered("09:00", &monday_at_ten()).unwrap();
    assert_eq!(task, CountdownTask::one_shot(82800));
    let task = scheduler.schedule_manual_entered("\n10:00", &monday_at_ten()).unwrap();
    assert_eq!(task.delay(), 86400);
    assert_eq!(
        scheduler.registry().list(),
        vec![manual("  12:00 \t", 7200), manual("09:00", 82800), manual("\n10:00", 86400)]
    );
}

#[test]
fn entered_text_that_is_no_time_is_rejected_and_not_recorded() {
    let mut scheduler = Scheduler::new();
    let now = monday_at_ten();
    assert_eq!(scheduler.schedule_manual_entered("25:00", &now), Err(ParseError::OutOfRange));
    assert_eq!(scheduler.schedule_manual_entered(" 25:00 ", &now), Err(ParseError::OutOfRange));
    assert_eq!(scheduler.schedule_manual_entered(" 12:60", &now), Err(ParseError::OutOfRange));
    for text in ["", "   ", "noon", " 7:30 ", "07 :30", "07: 30", "0730", "07:30 x"] {
        assert_eq!(scheduler.schedule_manual_entered(text, &now), Err(ParseError::Malformed));
    }
    assert!(scheduler.registry().is_empty());
}

#[test]
fn entered_text_without_blanks_is_planned_as_by_schedule_manual() {
    let now = monday_at_ten();
    for text in ["00:00", "09:59", "10:00", "10:01", "23:59", "24:00", "9:00", "ab:cd"] {
        let mut strict = Scheduler::new();
        let mut lenient = Scheduler::new();
        assert_eq!(
            lenient.schedule_manual_entered(text, &now),
            strict.schedule_manual(text, &now)
        );
        assert_eq!(lenient.registry().list(), strict.registry().list());
    }
}

#[test]
fn registry_keeps_manual_tasks_in_the_order_of_entry() {
    let mut scheduler = Scheduler::new();
    scheduler.schedule_manual("12:00", &monday_at_ten()).unwrap();
    scheduler.schedule_manual("09:00", &monday_at_ten()).unwrap();
    scheduler.schedule_manual("12:00", &monday_at_ten()).unwrap();
    assert_eq!(
        scheduler.registry().list(),
        vec![manual("12:00", 7200), manual("09:00", 82800), manual("12:00", 7200)]
    );
}

#[test]
fn registry_records_and_lists() {
    let mut registry = TaskRegistry::new();
    assert!(registry.is_empty());
    assert_eq!(registry.get(0), None);
    registry.record(manual("07:30", 10));
    registry.record(manual("anything", 0));
    assert!(!registry.is_empty());
    assert_eq!(registry.len(), 2);
    assert_eq!(registry.get(0), Some(&manual("07:30", 10)));
    assert_eq!(registry.get(1), Some(&manual("anything", 0)));
    assert_eq!(registry.get(2), None);
    assert_eq!(registry.list(), vec![manual("07:30", 10), manual("anything", 0)]);
    assert_eq!(manual("07:30", 10).clone(), manual("07:30", 10));
}

#[test]
fn activate_now_plans_as_of_the_moment_it_hands_back() {
    let mut schedule = Schedule::inactive();
    schedule.set_time_text(Weekday::Monday, "09:00".to_string());
    schedule.set_time_text(Weekday::Thursday, "23:59".to_string());
    schedule.set_time_text(Weekday::Sunday, "oops".to_string());
    let scheduler = Scheduler::new();
    let (now, activation) = scheduler.activate_now(&schedule);
    let expected = scheduler.activate(&schedule, &now);
    assert_eq!(activation.tasks, expected.tasks);
    assert_eq!(activation.diagnostics, expected.diagnostics);
    assert_eq!(activation.tasks.len(), 2);
    assert_eq!(activation.diagnostics.len(), 1);
}

#[test]
fn schedule_manual_now_plans_as_of_the_moment_it_hands_back() {
    let mut scheduler = Scheduler::new();
    let (now, planned) = scheduler.schedule_manual_now("06:15");
    let delay = delay_until(&TimeOfDay::new(6, 15).unwrap(), &now);
    assert_eq!(planned, Ok(CountdownTask::one_shot(delay)));
    assert_eq!(scheduler.registry().list(), vec![manual("06:15", delay)]);
    let (_, rejected) = scheduler.schedule_manual_now("25:00");
    assert_eq!(rejected, Err(ParseError::OutOfRange));
    assert_eq!(scheduler.registry().len(), 1);
}

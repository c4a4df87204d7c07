use shutdown_scheduler::countdown::{Action, CountdownTask, Recurrence, WARNING_LEAD};
use shutdown_scheduler::weekday::Weekday;

fn take(task: &mut CountdownTask, n: usize) -> Vec<Action> {
    let mut actions = Vec::new();
    for _ in 0..n {
        actions.push(task.advance());
    }
    actions
}

#[test]
fn warning_lead_is_five_minutes() {
    assert_eq!(WARNING_LEAD, 300);
}

#[test]
fn recurring_task_with_delay_301_warns_after_one_second() {
    let mut task = CountdownTask::weekly(Weekday::Monday, 301);
    assert_eq!(task.advance(), Action::Sleep { seconds: 1 });
    assert_eq!(task.advance(), Action::Warn);
    assert_eq!(task.advance(), Action::Sleep { seconds: 300 });
    assert_eq!(task.advance(), Action::Shutdown);
    assert_eq!(task.delay(), 7 * 86400);
    assert!(!task.is_finished());
    assert_eq!(task, CountdownTask::weekly(Weekday::Monday, 604800));
}

#[test]
fn recurring_task_with_delay_200_never_warns() {
    let mut task = CountdownTask::weekly(Weekday::Tuesday, 200);
    assert_eq!(task.advance(), Action::Sleep { seconds: 200 });
    assert_eq!(task.advance(), Action::Shutdown);
    assert_eq!(task.delay(), 604800);
    assert_eq!(task, CountdownTask::weekly(Weekday::Tuesday, 604800));
}

#[test]
fn recurring_task_repeats_every_week_with_a_warning() {
    let mut task = CountdownTask::weekly(Weekday::Friday, 200);
    let actions = take(&mut task, 10);
    assert_eq!(
        actions,
        vec![
            Action::Sleep { seconds: 200 },
            Action::Shutdown,
            Action::Sleep { seconds: 604500 },
            Action::Warn,
            Action::Sleep { seconds: 300 },
            Action::Shutdown,
            Action::Sleep { seconds: 604500 },
            Action::Warn,
            Action::Sleep { seconds: 300 },
            Action::Shutdown,
        ]
    );
    assert!(!task.is_finished());
    assert!(task.is_recurring());
    assert_eq!(task.recurrence(), Recurrence::Weekly(Weekday::Friday));
}

#[test]
fn one_shot_task_fires_once_and_is_over() {
    let mut task = CountdownTask::one_shot(3600);
    assert!(!task.is_recurring());
    assert_eq!(task.recurrence(), Recurrence::Once);
    assert_eq!(task.delay(), 3600);
    assert!(!task.is_finished());
    assert_eq!(task.advance(), Action::Sleep { seconds: 3300 });
    assert_eq!(task.advance(), Action::Warn);
    assert_eq!(task.advance(), Action::Sleep { seconds: 300 });
    assert!(!task.is_finished());
    assert_eq!(task.advance(), Action::Shutdown);
    assert!(task.is_finished());
    assert_eq!(take(&mut task, 5), vec![Action::Finished; 5]);
    assert!(task.is_finished());
    assert_eq!(task.delay(), 3600);
}

#[test]
fn short_one_shot_task_powers_off_without_warning() {
    let mut task = CountdownTask::one_shot(42);
    assert_eq!(take(&mut task, 3), vec![
        Action::Sleep { seconds: 42 },
        Action::Shutdown,
        Action::Finished,
    ]);
}

#[test]
fn delay_of_exactly_the_lead_gives_no_warning() {
    let mut task = CountdownTask::one_shot(300);
    assert_eq!(take(&mut task, 3), vec![
        Action::Sleep { seconds: 300 },
        Action::Shutdown,
        Action::Finished,
    ]);
}

#[test]
fn delay_of_zero_powers_off_at_once() {
    let mut task = CountdownTask::one_shot(0);
    assert_eq!(take(&mut task, 3), vec![
        Action::Sleep { seconds: 0 },
        Action::Shutdown,
        Action::Finished,
    ]);
}

#[test]
fn every_cycle_sleeps_for_its_delay_and_powers_off_once() {
    for delay in [0u64, 1, 299, 300, 301, 302, 600, 86400, 604800, u64::MAX] {
        let mut task = CountdownTask::one_shot(delay);
        let mut slept: u128 = 0;
        let mut warnings = 0;
        let mut shutdowns = 0;
        let mut slept_since_warning: Option<u64> = None;
        loop {
            match task.advance() {
                Action::Sleep { seconds } => {
                    slept += seconds as u128;
                    if let Some(s) = slept_since_warning.as_mut() {
                        *s += seconds;
                    }
                }
                Action::Warn => {
                    warnings += 1;
                    slept_since_warning = Some(0);
                }
                Action::Shutdown => shutdowns += 1,
                Action::Finished => break,
            }
        }
        assert_eq!(slept, delay as u128);
        assert_eq!(shutdowns, 1);
        assert_eq!(warnings, if delay > 300 { 1 } else { 0 });
        if delay > 300 {
            assert_eq!(slept_since_warning, Some(300));
        }
    }
}

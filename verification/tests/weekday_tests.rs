use shutdown_scheduler::weekday::Weekday;

const WEEK: [Weekday; 7] = [
    Weekday::Monday,
    Weekday::Tuesday,
    Weekday::Wednesday,
    Weekday::Thursday,
    Weekday::Friday,
    Weekday::Saturday,
    Weekday::Sunday,
];

#[test]
fn weekdays_are_ordered_from_monday() {
    for (i, day) in WEEK.iter().enumerate() {
        assert_eq!(day.index() as usize, i);
        assert_eq!(Weekday::from_index(i as u8), Some(*day));
    }
    assert_eq!(Weekday::from_index(7), None);
    assert_eq!(Weekday::from_index(255), None);
}

#[test]
fn labels_name_the_days() {
    let labels =
        ["Monday", "Tuesday", "Wednesday", "Thursday", "Friday", "Saturday", "Sunday"];
    for (day, label) in WEEK.iter().zip(labels.iter()) {
        assert_eq!(day.label(), *label);
        assert_eq!(Weekday::from_label(label), Some(*day));
    }
}

#[test]
fn unknown_labels_name_no_day() {
    assert_eq!(Weekday::from_label(""), None);
    assert_eq!(Weekday::from_label("monday"), None);
    assert_eq!(Weekday::from_label("Mon"), None);
    assert_eq!(Weekday::from_label("Monday "), None);
    assert_eq!(Weekday::from_label("Funday"), None);
    assert_eq!(Weekday::from_label("Montag"), None);
}

#[test]
fn days_until_counts_around_the_week() {
    for (i, from) in WEEK.iter().enumerate() {
        for (j, to) in WEEK.iter().enumerate() {
            let expected = (j + 7 - i) % 7;
            assert_eq!(from.days_until(*to) as usize, expected);
        }
    }
    assert_eq!(Weekday::Monday.days_until(Weekday::Wednesday), 2);
    assert_eq!(Weekday::Sunday.days_until(Weekday::Monday), 1);
    assert_eq!(Weekday::Monday.days_until(Weekday::Sunday), 6);
    assert_eq!(Weekday::Friday.days_until(Weekday::Friday), 0);
}

#[test]
fn next_wraps_from_sunday_to_monday() {
    assert_eq!(Weekday::Monday.next(), Weekday::Tuesday);
    assert_eq!(Weekday::Saturday.next(), Weekday::Sunday);
    assert_eq!(Weekday::Sunday.next(), Weekday::Monday);
    for day in WEEK {
        assert_eq!(day.days_until(day.next()), 1);
    }
}

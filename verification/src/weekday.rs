//! The seven weekdays, ordered Monday = 0 through Sunday = 6, and the
//! circular distance between two of them.

use vstd::prelude::*;
use vstd::string::*;

use crate::text::text_equal;

verus! {

/// A day of the week.
#[derive(Clone, Copy, Debug, PartialEq, Eq, Structural)]
pub enum Weekday {
    Monday,
    Tuesday,
    Wednesday,
    Thursday,
    Friday,
    Saturday,
    Sunday,
}

/// Number of days in a week.
pub const DAYS_PER_WEEK: u8 = 7;

/// The number of whole days from the day with index `today` to the next day
/// with index `target`, counting around the week: zero when they coincide.
pub open spec fn days_between(today: int, target: int) -> int {
    (target - today) % 7
}

impl Weekday {
    /// Position of the day in the week: Monday is 0, Sunday is 6.
    pub open spec fn spec_index(self) -> int {
        match self {
            Weekday::Monday => 0,
            Weekday::Tuesday => 1,
            Weekday::Wednesday => 2,
            Weekday::Thursday => 3,
            Weekday::Friday => 4,
            Weekday::Saturday => 5,
            Weekday::Sunday => 6,
        }
    }

    /// The day at position `i` of the week, for `i` from 0 to 6; Sunday for
    /// any other `i`.
    pub open spec fn spec_from_index(i: int) -> Weekday {
        if i == 0 {
            Weekday::Monday
        } else if i == 1 {
            Weekday::Tuesday
        } else if i == 2 {
            Weekday::Wednesday
        } else if i == 3 {
            Weekday::Thursday
        } else if i == 4 {
            Weekday::Friday
        } else if i == 5 {
            Weekday::Saturday
        } else {
            Weekday::Sunday
        }
    }

    /// The English name of the day, as used for keys in stored schedules.
    pub open spec fn spec_label(self) -> Seq<char> {
        match self {
            Weekday::Monday => seq!['M', 'o', 'n', 'd', 'a', 'y'],
            Weekday::Tuesday => seq!['T', 'u', 'e', 's', 'd', 'a', 'y'],
            Weekday::Wednesday => seq!['W', 'e', 'd', 'n', 'e', 's', 'd', 'a', 'y'],
            Weekday::Thursday => seq!['T', 'h', 'u', 'r', 's', 'd', 'a', 'y'],
            Weekday::Friday => seq!['F', 'r', 'i', 'd', 'a', 'y'],
            Weekday::Saturday => seq!['S', 'a', 't', 'u', 'r', 'd', 'a', 'y'],
            Weekday::Sunday => seq!['S', 'u', 'n', 'd', 'a', 'y'],
        }
    }

    /// Whether `label` names one of the seven days.
    pub open spec fn is_label(label: Seq<char>) -> bool {
        exists|i: int| 0 <= i < 7 && label == #[trigger] Weekday::spec_from_index(i).spec_label()
    }

    /// The day that follows this one.
    pub open spec fn spec_next(self) -> Weekday {
        Weekday::spec_from_index((self.spec_index() + 1) % 7)
    }

    /// Days to wait from `self` until the next `target`; zero if they are the
    /// same day.
    pub open spec fn spec_days_until(self, target: Weekday) -> int {
        days_between(self.spec_index(), target.spec_index())
    }

    /// Position of the day in the week: 0 for Monday, 6 for Sunday.
    pub fn index(self) -> (i: u8)
        ensures
            i == self.spec_index(),
            i < DAYS_PER_WEEK,
    {
        match self {
            Weekday::Monday => 0,
            Weekday::Tuesday => 1,
            Weekday::Wednesday => 2,
            Weekday::Thursday => 3,
            Weekday::Friday => 4,
            Weekday::Saturday => 5,
            Weekday::Sunday => 6,
        }
    }

    /// The day at position `i`, or `None` when `i` is not below seven.
    pub fn from_index(i: u8) -> (day: Option<Weekday>)
        ensures
            day is Some <==> i < DAYS_PER_WEEK,
            day is Some ==> day->0 == Weekday::spec_from_index(i as int),
            day is Some ==> day->0.spec_index() == i,
    {
        match i {
            0 => Some(Weekday::Monday),
            1 => Some(Weekday::Tuesday),
            2 => Some(Weekday::Wednesday),
            3 => Some(Weekday::Thursday),
            4 => Some(Weekday::Friday),
            5 => Some(Weekday::Saturday),
            6 => Some(Weekday::Sunday),
            _ => None,
        }
    }

    /// The English name of the day.
    pub fn label(self) -> (name: &'static str)
        ensures
            name@ == self.spec_label(),
    {
        proof {
            reveal_strlit("Monday");
            reveal_strlit("Tuesday");
            reveal_strlit("Wednesday");
            reveal_strlit("Thursday");
            reveal_strlit("Friday");
            reveal_strlit("Saturday");
            reveal_strlit("Sunday");
        }
        let name = match self {
            Weekday::Monday => "Monday",
            Weekday::Tuesday => "Tuesday",
            Weekday::Wednesday => "Wednesday",
            Weekday::Thursday => "Thursday",
            Weekday::Friday => "Friday",
            Weekday::Saturday => "Saturday",
            Weekday::Sunday => "Sunday",
        };
        assert(name@ =~= self.spec_label());
        name
    }

    /// The day that `label` names, or `None` when it names none. Labels are
    /// matched exactly: case and surrounding blanks count.
    pub fn from_label(label: &str) -> (day: Option<Weekday>)
        ensures
            day is Some <==> Weekday::is_label(label@),
            day is Some ==> day->0.spec_label() == label@,
    {
        let mut i: u8 = 0;
        while i < 7
            invariant
                i <= 7,
                forall|j: int| 0 <= j < i ==> label@ != #[trigger] Weekday::spec_from_index(j).spec_label(),
            decreases 7 - i,
        {
            let candidate = match Weekday::from_index(i) {
                Some(d) => d,
                None => Weekday::Sunday,
            };
            if text_equal(label, candidate.label()) {
                assert(Weekday::is_label(label@));
                return Some(candidate);
            }
            i += 1;
        }
        None
    }

    /// The day that follows this one; Monday follows Sunday.
    pub fn next(self) -> (day: Weekday)
        ensures
            day == self.spec_next(),
    {
        match self {
            Weekday::Monday => Weekday::Tuesday,
            Weekday::Tuesday => Weekday::Wednesday,
            Weekday::Wednesday => Weekday::Thursday,
            Weekday::Thursday => Weekday::Friday,
            Weekday::Friday => Weekday::Saturday,
            Weekday::Saturday => Weekday::Sunday,
            Weekday::Sunday => Weekday::Monday,
        }
    }

    /// Days to wait from this day until the next `target`, counted around
    /// the week; zero if the two are the same day.
    pub fn days_until(self, target: Weekday) -> (days: u8)
        ensures
            days == self.spec_days_until(target),
            days < DAYS_PER_WEEK,
    {
        let from: u8 = self.index();
        let to: u8 = target.index();
        if to >= from {
            to - from
        } else {
            7 - from + to
        }
    }
}

/// Index and day determine each other.
pub proof fn lemma_index_roundtrip(day: Weekday, i: int)
    ensures
        Weekday::spec_from_index(day.spec_index()) == day,
        0 <= day.spec_index() < 7,
        0 <= i < 7 ==> Weekday::spec_from_index(i).spec_index() == i,
{
}

/// No two days share a label.
pub proof fn lemma_labels_distinct(a: Weekday, b: Weekday)
    requires
        a.spec_label() == b.spec_label(),
    ensures
        a == b,
{
    let la = a.spec_label();
    let lb = b.spec_label();
    assert(la.len() == lb.len());
    assert(la[0] == lb[0]);
    assert(la[1] == lb[1]);
}

/// The distance from a day to another lies within one week; it is zero
/// exactly when the two coincide, and one exactly for the following day.
pub proof fn lemma_days_until_range(today: Weekday, target: Weekday)
    ensures
        0 <= today.spec_days_until(target) < 7,
        today.spec_days_until(target) == 0 <==> today == target,
        today.spec_days_until(target) == 1 <==> target == today.spec_next(),
        Weekday::spec_from_index((today.spec_index() + today.spec_days_until(target)) % 7)
            == target,
{
}

} // verus!

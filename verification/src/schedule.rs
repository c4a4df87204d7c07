//! The weekly schedule: for each of the seven weekdays the text of a time of
//! day, or a blank text for a day on which nothing is scheduled. Also the
//! form in which a schedule is kept in storage, where days go by their
//! labels, and the notes that are taken of entries that had to be skipped.

use vstd::prelude::*;
use vstd::string::*;

use crate::text::{is_blank, text_is_blank};
use crate::time_of_day::ParseError;
use crate::weekday::{lemma_index_roundtrip, lemma_labels_distinct, Weekday};

verus! {

/// A note on an entry that was skipped. None of these stops the work on the
/// other entries.
#[derive(Clone, Copy, Debug, PartialEq, Eq, Structural)]
pub enum Diagnostic {
    /// The text for `day` is not a time of day, for the reason given.
    InvalidTime { day: Weekday, reason: ParseError },
    /// The stored entry at position `entry` is labelled with something that
    /// is no weekday.
    UnknownWeekday { entry: usize },
}

/// What a stored entry stands for.
pub struct StoredEntryView {
    pub day: Seq<char>,
    pub times: Seq<Seq<char>>,
}

impl StoredEntryView {
    /// The text that counts: the first of the entry's times, or the empty
    /// text when it has none.
    pub open spec fn time_text(self) -> Seq<char> {
        if self.times.len() > 0 {
            self.times[0]
        } else {
            Seq::<char>::empty()
        }
    }
}

/// One entry of a schedule as it is kept in storage: the label of a day, and
/// a list of times of which only the first is used.
#[derive(Debug, PartialEq, Eq)]
pub struct StoredEntry {
    pub day: String,
    pub times: Vec<String>,
}

impl View for StoredEntry {
    type V = StoredEntryView;

    open spec fn view(&self) -> StoredEntryView {
        StoredEntryView {
            day: self.day@,
            times: Seq::new(self.times@.len(), |i: int| self.times@[i]@),
        }
    }
}

/// What a list of stored entries stands for, entry by entry.
pub open spec fn stored_views(entries: Seq<StoredEntry>) -> Seq<StoredEntryView> {
    Seq::new(entries.len(), |i: int| entries[i]@)
}

/// The text that storage holds for `day`: that of the last entry labelled
/// with the day, or the empty text when no entry is.
pub open spec fn stored_time_text(entries: Seq<StoredEntryView>, day: Weekday) -> Seq<char>
    decreases entries.len(),
{
    if entries.len() == 0 {
        Seq::<char>::empty()
    } else if entries.last().day == day.spec_label() {
        entries.last().time_text()
    } else {
        stored_time_text(entries.drop_last(), day)
    }
}

/// The schedule that a list of stored entries stands for.
pub open spec fn schedule_of_stored(entries: Seq<StoredEntryView>) -> Seq<Seq<char>> {
    Seq::new(7, |i: int| stored_time_text(entries, Weekday::spec_from_index(i)))
}

/// One note for each stored entry whose label is no weekday, in the order of
/// the entries.
pub open spec fn unknown_weekday_notes(entries: Seq<StoredEntryView>) -> Seq<Diagnostic>
    decreases entries.len(),
{
    if entries.len() == 0 {
        Seq::<Diagnostic>::empty()
    } else {
        let before = unknown_weekday_notes(entries.drop_last());
        if Weekday::is_label(entries.last().day) {
            before
        } else {
            before.push(Diagnostic::UnknownWeekday { entry: (entries.len() - 1) as usize })
        }
    }
}

/// The stored form of the schedule `s`: one entry for each weekday, Monday
/// first, labelled with the day and holding the day's text as its only time.
pub open spec fn stored_form(s: Seq<Seq<char>>) -> Seq<StoredEntryView> {
    Seq::new(
        7,
        |i: int|
            StoredEntryView { day: Weekday::spec_from_index(i).spec_label(), times: seq![s[i]] },
    )
}

/// The schedule in which no day is active.
pub open spec fn inactive_schedule() -> Seq<Seq<char>> {
    Seq::new(7, |i: int| Seq::<char>::empty())
}

/// Whether the schedule `s` has a time text that is not blank for `day`.
pub open spec fn is_active_on(s: Seq<Seq<char>>, day: Weekday) -> bool {
    !is_blank(s[day.spec_index()])
}

/// A weekly schedule. It covers all seven weekdays at all times; a day
/// without a time holds a blank text.
#[derive(Debug)]
pub struct Schedule {
    slots: Vec<String>,
}

impl View for Schedule {
    type V = Seq<Seq<char>>;

    closed spec fn view(&self) -> Seq<Seq<char>> {
        Seq::new(7, |i: int| self.slots@[i]@)
    }
}

impl Schedule {
    #[verifier::type_invariant]
    closed spec fn covers_week(self) -> bool {
        self.slots@.len() == 7
    }

    /// The schedule on which no day is active.
    pub fn inactive() -> (schedule: Schedule)
        ensures
            schedule@ == inactive_schedule(),
    {
        let mut slots: Vec<String> = Vec::new();
        let mut i: u8 = 0;
        while i < 7
            invariant
                i <= 7,
                slots@.len() == i,
                forall|j: int| 0 <= j < i ==> slots@[j]@ == Seq::<char>::empty(),
            decreases 7 - i,
        {
            slots.push(String::new());
            i += 1;
        }
        let schedule = Schedule { slots };
        assert(schedule@ =~= inactive_schedule());
        schedule
    }

    /// The text that is scheduled for `day`; blank if the day is not active.
    pub fn time_text(&self, day: Weekday) -> (text: &str)
        ensures
            text@ == self@[day.spec_index()],
            self@.len() == 7,
    {
        proof {
            use_type_invariant(self);
        }
        self.slots[day.index() as usize].as_str()
    }

    /// Whether anything is scheduled for `day`: whether its text is not
    /// blank. The text need not be a time of day.
    pub fn is_active(&self, day: Weekday) -> (active: bool)
        ensures
            active == is_active_on(self@, day),
    {
        !text_is_blank(self.time_text(day))
    }

    /// Puts `text` in the place of what was scheduled for `day`; the other
    /// days keep theirs.
    pub fn set_time_text(&mut self, day: Weekday, text: String)
        ensures
            final(self)@ == old(self)@.update(day.spec_index(), text@),
            final(self)@.len() == 7,
    {
        proof {
            use_type_invariant(&*self);
        }
        let target: usize = day.index() as usize;
        let mut slots: Vec<String> = Vec::new();
        let mut i: usize = 0;
        while i < 7
            invariant
                i <= 7,
                target < 7,
                self.slots@.len() == 7,
                slots@.len() == i,
                forall|j: int| 0 <= j < i ==> (#[trigger] slots@[j])@ == self.slots@[j]@,
            decreases 7 - i,
        {
            slots.push(self.slots[i].clone());
            i += 1;
        }
        slots.set(target, text);
        let ghost before = self@;
        *self = Schedule { slots };
        assert(self@ =~= before.update(day.spec_index(), text@));
    }

    /// Reads a schedule from its stored form. Each entry with the label of a
    /// weekday sets that day's text to the first of its times, or to the
    /// empty text if it has none; of several entries for one day the last
    /// counts. Days without an entry are not active. An entry with any other
    /// label is skipped, and noted.
    pub fn from_stored(entries: &Vec<StoredEntry>) -> (loaded: (Schedule, Vec<Diagnostic>))
        ensures
            loaded.0@ == schedule_of_stored(stored_views(entries@)),
            loaded.1@ == unknown_weekday_notes(stored_views(entries@)),
    {
        let mut schedule = Schedule::inactive();
        let mut notes: Vec<Diagnostic> = Vec::new();
        let ghost all = stored_views(entries@);
        let n: usize = entries.len();
        let mut i: usize = 0;
        assert(schedule@ =~= schedule_of_stored(all.take(0)));
        while i < n
            invariant
                i <= n,
                n == entries@.len(),
                all == stored_views(entries@),
                schedule@ == schedule_of_stored(all.take(i as int)),
                notes@ == unknown_weekday_notes(all.take(i as int)),
            decreases n - i,
        {
            let entry = &entries[i];
            let ghost before = all.take(i as int);
            let ghost upto = all.take(i + 1);
            proof {
                assert(upto.drop_last() =~= before);
                assert(upto.last() == entry@);
            }
            match Weekday::from_label(entry.day.as_str()) {
                Some(day) => {
                    let text: String = if entry.times.len() > 0 {
                        entry.times[0].clone()
                    } else {
                        String::new()
                    };
                    assert(text@ == entry@.time_text());
                    schedule.set_time_text(day, text);
                    proof {
                        assert forall|k: int| 0 <= k < 7 implies #[trigger] schedule@[k]
                            == schedule_of_stored(upto)[k] by {
                            let other = Weekday::spec_from_index(k);
                            lemma_index_roundtrip(day, k);
                            if k != day.spec_index() {
                                if other.spec_label() == day.spec_label() {
                                    lemma_labels_distinct(other, day);
                                }
                            }
                        }
                        assert(schedule@ =~= schedule_of_stored(upto));
                    }
                },
                None => {
                    notes.push(Diagnostic::UnknownWeekday { entry: i });
                    proof {
                        assert(schedule@ =~= schedule_of_stored(upto));
                    }
                },
            }
            i += 1;
        }
        assert(all.take(n as int) =~= all);
        (schedule, notes)
    }

    /// Reads a schedule from what storage gave: from the entries if there
    /// are any to read, and else, when storage was missing or unreadable,
    /// the schedule on which no day is active, with nothing to note.
    pub fn from_storage(stored: Option<&Vec<StoredEntry>>) -> (loaded: (Schedule, Vec<Diagnostic>))
        ensures
            match stored {
                Some(entries) => {
                    &&& loaded.0@ == schedule_of_stored(stored_views(entries@))
                    &&& loaded.1@ == unknown_weekday_notes(stored_views(entries@))
                },
                None => {
                    &&& loaded.0@ == inactive_schedule()
                    &&& loaded.1@ == Seq::<Diagnostic>::empty()
                },
            },
    {
        match stored {
            Some(entries) => Schedule::from_stored(entries),
            None => (Schedule::inactive(), Vec::new()),
        }
    }

    /// The schedule in its stored form: one entry for each weekday, Monday
    /// first, each with the day's text as its only time.
    pub fn to_stored(&self) -> (entries: Vec<StoredEntry>)
        ensures
            stored_views(entries@) == stored_form(self@),
            entries@.len() == 7,
    {
        proof {
            use_type_invariant(self);
        }
        let mut entries: Vec<StoredEntry> = Vec::new();
        let mut i: u8 = 0;
        while i < 7
            invariant
                i <= 7,
                self@.len() == 7,
                entries@.len() == i,
                forall|j: int| 0 <= j < i ==> (#[trigger] entries@[j])@ == stored_form(self@)[j],
            decreases 7 - i,
        {
            let day = match Weekday::from_index(i) {
                Some(d) => d,
                None => Weekday::Sunday,
            };
            let mut times: Vec<String> = Vec::new();
            times.push(self.time_text(day).to_owned());
            let entry = StoredEntry { day: day.label().to_owned(), times };
            assert(entry@.times =~= seq![self@[i as int]]);
            entries.push(entry);
            i += 1;
        }
        assert(stored_views(entries@) =~= stored_form(self@));
        entries
    }
}

/// A schedule covers the seven weekdays, whatever was done to it.
pub proof fn lemma_schedule_covers_week(schedule: Schedule)
    ensures
        schedule@.len() == 7,
{
}

/// Storing a schedule and reading it back gives the same schedule, and
/// nothing to note.
pub proof fn lemma_stored_roundtrip(schedule: Seq<Seq<char>>)
    requires
        schedule.len() == 7,
    ensures
        schedule_of_stored(stored_form(schedule)) == schedule,
        unknown_weekday_notes(stored_form(schedule)) == Seq::<Diagnostic>::empty(),
{
    reveal_with_fuel(unknown_weekday_notes, 8);
    reveal_with_fuel(stored_time_text, 8);
    let entries = stored_form(schedule);
    let e6 = entries.drop_last();
    let e5 = e6.drop_last();
    let e4 = e5.drop_last();
    let e3 = e4.drop_last();
    let e2 = e3.drop_last();
    let e1 = e2.drop_last();
    let e0 = e1.drop_last();
    assert(e0.len() == 0);
    assert(entries.last() == entries[6]);
    assert(e6.last() == entries[5]);
    assert(e5.last() == entries[4]);
    assert(e4.last() == entries[3]);
    assert(e3.last() == entries[2]);
    assert(e2.last() == entries[1]);
    assert(e1.last() == entries[0]);
    assert forall|i: int| 0 <= i < 7 implies Weekday::is_label(#[trigger] entries[i].day) by {
        assert(entries[i].day == Weekday::spec_from_index(i).spec_label());
    }
    assert forall|k: int| 0 <= k < 7 implies #[trigger] schedule_of_stored(entries)[k]
        == schedule[k] by {
        let day = Weekday::spec_from_index(k);
        assert forall|j: int| 0 <= j < 7 && j != k implies #[trigger] entries[j].day
            != day.spec_label() by {
            let other = Weekday::spec_from_index(j);
            lemma_index_roundtrip(other, j);
            lemma_index_roundtrip(day, k);
            if other.spec_label() == day.spec_label() {
                lemma_labels_distinct(other, day);
            }
        }
        assert(entries[k].day == day.spec_label());
        assert(entries[k].time_text() == schedule[k]);
    }
    assert(schedule_of_stored(entries) =~= schedule);
}

/// Storage without any entry stands for the schedule on which no day is
/// active, and on that schedule no day is active.
pub proof fn lemma_nothing_stored_is_inactive(day: Weekday)
    ensures
        schedule_of_stored(Seq::<StoredEntryView>::empty()) == inactive_schedule(),
        !is_active_on(inactive_schedule(), day),
{
    assert(schedule_of_stored(Seq::<StoredEntryView>::empty()) =~= inactive_schedule());
}

} // verus!

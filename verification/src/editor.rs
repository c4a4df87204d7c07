//! The form in which a schedule is edited: for each weekday a switch and a
//! text. A schedule is laid out in the form, and the form is read back into
//! a schedule, where only texts that are times of day are kept.

use vstd::prelude::*;
use vstd::string::*;

use crate::schedule::{Diagnostic, Schedule};
use crate::text::{
    is_blank, is_white_space, lemma_trimmed_of_tight, text_is_blank, trim_text, trimmed,
};
use crate::time_of_day::{is_clock_text, parse_clock_text, TimeOfDay};
use crate::weekday::Weekday;

verus! {

/// What one line of the form stands for.
pub struct DayEditView {
    pub active: bool,
    pub time: Seq<char>,
}

impl DayEditView {
    /// The text that goes into the schedule for this line: the text of the
    /// line without the blanks around it, if the line is switched on and
    /// that text is a time of day; the empty text otherwise.
    pub open spec fn saved_text(self) -> Seq<char> {
        if self.active && parse_clock_text(trimmed(self.time)) is Ok {
            trimmed(self.time)
        } else {
            Seq::<char>::empty()
        }
    }

    /// Whether the line is switched on but holds no time of day.
    pub open spec fn is_rejected(self) -> bool {
        self.active && parse_clock_text(trimmed(self.time)) is Err
    }
}

/// One line of the form: whether the day is switched on, and the text that
/// was entered for it.
#[derive(Debug, PartialEq, Eq)]
pub struct DayEdit {
    pub active: bool,
    pub time: String,
}

impl View for DayEdit {
    type V = DayEditView;

    open spec fn view(&self) -> DayEditView {
        DayEditView { active: self.active, time: self.time@ }
    }
}

/// What a list of lines stands for, line by line.
pub open spec fn line_views(lines: Seq<DayEdit>) -> Seq<DayEditView> {
    Seq::new(lines.len(), |i: int| lines[i]@)
}

/// The form that shows the schedule `s`: every day with its text, switched
/// on where the text is not blank.
pub open spec fn form_of_schedule(s: Seq<Seq<char>>) -> Seq<DayEditView> {
    Seq::new(7, |i: int| DayEditView { active: !is_blank(s[i]), time: s[i] })
}

/// The schedule that the form `lines` is read back to.
pub open spec fn schedule_of_form(lines: Seq<DayEditView>) -> Seq<Seq<char>> {
    Seq::new(7, |i: int| lines[i].saved_text())
}

/// One note for each of the first `upto` lines of the form that is switched
/// on but holds no time of day, Monday first.
pub open spec fn rejected_notes(lines: Seq<DayEditView>, upto: int) -> Seq<Diagnostic>
    decreases upto,
{
    if upto <= 0 {
        Seq::<Diagnostic>::empty()
    } else {
        let before = rejected_notes(lines, upto - 1);
        let line = lines[upto - 1];
        if line.is_rejected() {
            before.push(
                Diagnostic::InvalidTime {
                    day: Weekday::spec_from_index(upto - 1),
                    reason: parse_clock_text(trimmed(line.time))->Err_0,
                },
            )
        } else {
            before
        }
    }
}

/// The form for editing a schedule, one line for each weekday.
#[derive(Debug)]
pub struct EditForm {
    lines: Vec<DayEdit>,
}

impl View for EditForm {
    type V = Seq<DayEditView>;

    closed spec fn view(&self) -> Seq<DayEditView> {
        Seq::new(7, |i: int| self.lines@[i]@)
    }
}

impl EditForm {
    #[verifier::type_invariant]
    closed spec fn covers_week(self) -> bool {
        self.lines@.len() == 7
    }

    /// Lays `schedule` out for editing: each day shows its text, and is
    /// switched on if that text is not blank.
    pub fn from_schedule(schedule: &Schedule) -> (form: EditForm)
        ensures
            form@ == form_of_schedule(schedule@),
    {
        let mut lines: Vec<DayEdit> = Vec::new();
        let mut i: u8 = 0;
        while i < 7
            invariant
                i <= 7,
                lines@.len() == i,
                forall|j: int|
                    0 <= j < i ==> (#[trigger] lines@[j])@ == form_of_schedule(schedule@)[j],
            decreases 7 - i,
        {
            let day = match Weekday::from_index(i) {
                Some(d) => d,
                None => Weekday::Sunday,
            };
            let text = schedule.time_text(day);
            let line = DayEdit { active: !text_is_blank(text), time: text.to_owned() };
            lines.push(line);
            i += 1;
        }
        let form = EditForm { lines };
        assert(form@ =~= form_of_schedule(schedule@));
        form
    }

    /// The form that holds `lines`, Monday first, or `None` when they are not
    /// seven.
    pub fn from_lines(lines: Vec<DayEdit>) -> (form: Option<EditForm>)
        ensures
            form is Some <==> lines@.len() == 7,
            form is Some ==> form->0@ == line_views(lines@),
    {
        if lines.len() == 7 {
            let form = EditForm { lines };
            assert(form@ =~= line_views(lines@));
            Some(form)
        } else {
            None
        }
    }

    /// The seven lines of the form, Monday first.
    pub fn into_lines(self) -> (lines: Vec<DayEdit>)
        ensures
            lines@.len() == 7,
            line_views(lines@) == self@,
    {
        proof {
            use_type_invariant(&self);
        }
        assert(line_views(self.lines@) =~= self@);
        self.lines
    }

    /// Whether `day` is switched on.
    pub fn is_active(&self, day: Weekday) -> (active: bool)
        ensures
            active == self@[day.spec_index()].active,
            self@.len() == 7,
    {
        proof {
            use_type_invariant(self);
        }
        self.lines[day.index() as usize].active
    }

    /// The text that was entered for `day`.
    pub fn time(&self, day: Weekday) -> (text: &str)
        ensures
            text@ == self@[day.spec_index()].time,
            self@.len() == 7,
    {
        proof {
            use_type_invariant(self);
        }
        self.lines[day.index() as usize].time.as_str()
    }

    /// Puts `line` in the place of the line for `day`; the other days keep
    /// theirs.
    pub fn set(&mut self, day: Weekday, line: DayEdit)
        ensures
            final(self)@ == old(self)@.update(day.spec_index(), line@),
            final(self)@.len() == 7,
    {
        proof {
            use_type_invariant(&*self);
        }
        let target: usize = day.index() as usize;
        let mut lines: Vec<DayEdit> = Vec::new();
        let mut i: usize = 0;
        while i < 7
            invariant
                i <= 7,
                target < 7,
                self.lines@.len() == 7,
                lines@.len() == i,
                forall|j: int| 0 <= j < i ==> (#[trigger] lines@[j])@ == self.lines@[j]@,
            decreases 7 - i,
        {
            let old_line = &self.lines[i];
            lines.push(DayEdit { active: old_line.active, time: old_line.time.clone() });
            i += 1;
        }
        lines.set(target, line);
        let ghost before = self@;
        *self = EditForm { lines };
        assert(self@ =~= before.update(day.spec_index(), line@));
    }

    /// Reads the form back into a schedule. A day that is switched on and
    /// whose text, without the blanks around it, is a time of day gets that
    /// text. Every other day gets the empty text; if it was switched on, a
    /// note says why its text is no time of day.
    pub fn to_schedule(&self) -> (saved: (Schedule, Vec<Diagnostic>))
        ensures
            saved.0@ == schedule_of_form(self@),
            saved.1@ == rejected_notes(self@, 7),
    {
        proof {
            use_type_invariant(self);
        }
        let mut schedule = Schedule::inactive();
        let mut notes: Vec<Diagnostic> = Vec::new();
        let mut i: u8 = 0;
        while i < 7
            invariant
                i <= 7,
                self.lines@.len() == 7,
                schedule@.len() == 7,
                forall|j: int| 0 <= j < i ==> #[trigger] schedule@[j] == self@[j].saved_text(),
                forall|j: int| i <= j < 7 ==> #[trigger] schedule@[j] == Seq::<char>::empty(),
                notes@ == rejected_notes(self@, i as int),
            decreases 7 - i,
        {
            let day = match Weekday::from_index(i) {
                Some(d) => d,
                None => Weekday::Sunday,
            };
            let line = &self.lines[i as usize];
            assert(line@ == self@[i as int]);
            if line.active {
                let inner = trim_text(line.time.as_str());
                match TimeOfDay::parse(inner) {
                    Ok(_) => {
                        schedule.set_time_text(day, inner.to_owned());
                    },
                    Err(reason) => {
                        notes.push(Diagnostic::InvalidTime { day, reason });
                    },
                }
            }
            i += 1;
        }
        assert(schedule@ =~= schedule_of_form(self@));
        (schedule, notes)
    }
}

/// Whether every day of the schedule `s` holds the empty text or a time of
/// day.
pub open spec fn is_clean(s: Seq<Seq<char>>) -> bool {
    &&& s.len() == 7
    &&& forall|i: int|
        0 <= i < 7 ==> (#[trigger] s[i]).len() == 0 || parse_clock_text(s[i]) is Ok
}

/// A form has a line for each of the seven weekdays, and so has every
/// schedule that a form is read back to.
pub proof fn lemma_form_covers_week(form: EditForm)
    ensures
        form@.len() == 7,
        schedule_of_form(form@).len() == 7,
{
}

/// A clock text has no white space in it, so trimming leaves it as it is.
pub proof fn lemma_clock_text_is_tight(s: Seq<char>)
    requires
        is_clock_text(s),
    ensures
        trimmed(s) == s,
        !is_blank(s),
{
    assert(!is_white_space(s[0]));
    assert(!is_white_space(s[4]));
    assert(s.last() == s[4]);
    lemma_trimmed_of_tight(s);
}

/// What the form is read back to is a clean schedule: each day holds the
/// empty text or a time of day, whatever was entered.
pub proof fn lemma_saved_schedule_is_clean(lines: Seq<DayEditView>)
    ensures
        is_clean(schedule_of_form(lines)),
{
}

/// Laying a clean schedule out in the form and reading the form back gives
/// the same schedule, with nothing to note.
pub proof fn lemma_form_roundtrip(s: Seq<Seq<char>>)
    requires
        is_clean(s),
    ensures
        schedule_of_form(form_of_schedule(s)) == s,
        rejected_notes(form_of_schedule(s), 7) == Seq::<Diagnostic>::empty(),
{
    let form = form_of_schedule(s);
    assert forall|i: int| 0 <= i < 7 implies #[trigger] form[i].saved_text() == s[i]
        && !form[i].is_rejected() by {
        if s[i].len() == 0 {
            assert(is_blank(s[i]));
            assert(s[i] =~= Seq::<char>::empty());
        } else {
            lemma_clock_text_is_tight(s[i]);
        }
    }
    assert(schedule_of_form(form) =~= s);
    lemma_no_notes_without_rejects(form, 7);
}

/// A form in which no line is rejected gives nothing to note.
pub proof fn lemma_no_notes_without_rejects(lines: Seq<DayEditView>, upto: int)
    requires
        forall|i: int| 0 <= i < upto ==> !(#[trigger] lines[i]).is_rejected(),
    ensures
        rejected_notes(lines, upto) == Seq::<Diagnostic>::empty(),
    decreases upto,
{
    if upto > 0 {
        lemma_no_notes_without_rejects(lines, upto - 1);
        assert(!lines[upto - 1].is_rejected());
    }
}

} // verus!

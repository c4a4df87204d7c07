//! The log of countdowns that were started by hand: what was asked for, and
//! the delay that came of it. Entries are added at the end and never change
//! or leave. The log is for looking at; scheduling never reads it.

use vstd::prelude::*;
use vstd::string::*;

verus! {

/// What a record stands for: the text that was entered and the seconds that
/// were computed from it.
pub struct ManualTaskRecord {
    pub time_text: Seq<char>,
    pub delay: int,
}

/// A countdown that was started by hand: the time as it was entered, and the
/// delay in seconds as it was computed at that moment.
#[derive(Debug, PartialEq, Eq)]
pub struct ManualTask {
    pub time_text: String,
    pub delay: u64,
}

impl View for ManualTask {
    type V = ManualTaskRecord;

    open spec fn view(&self) -> ManualTaskRecord {
        ManualTaskRecord { time_text: self.time_text@, delay: self.delay as int }
    }
}

impl Clone for ManualTask {
    fn clone(&self) -> (copy: ManualTask)
        ensures
            copy@ == self@,
    {
        ManualTask { time_text: self.time_text.clone(), delay: self.delay }
    }
}

/// The records that a sequence of tasks stands for, in the same order.
pub open spec fn records_of(tasks: Seq<ManualTask>) -> Seq<ManualTaskRecord> {
    Seq::new(tasks.len(), |i: int| tasks[i]@)
}

/// The log of manual tasks, in the order in which they were recorded.
#[derive(Debug)]
pub struct TaskRegistry {
    log: Vec<ManualTask>,
}

impl View for TaskRegistry {
    type V = Seq<ManualTaskRecord>;

    closed spec fn view(&self) -> Seq<ManualTaskRecord> {
        records_of(self.log@)
    }
}

impl TaskRegistry {
    /// A registry with nothing recorded.
    pub fn new() -> (registry: TaskRegistry)
        ensures
            registry@ == Seq::<ManualTaskRecord>::empty(),
    {
        let registry = TaskRegistry { log: Vec::new() };
        assert(registry@ =~= Seq::<ManualTaskRecord>::empty());
        registry
    }

    /// Adds `task` behind all that was recorded before.
    pub fn record(&mut self, task: ManualTask)
        ensures
            final(self)@ == old(self)@.push(task@),
    {
        self.log.push(task);
        assert(self@ =~= old(self)@.push(task@));
    }

    /// Number of tasks recorded so far.
    pub fn len(&self) -> (n: usize)
        ensures
            n == self@.len(),
    {
        self.log.len()
    }

    /// Whether nothing was recorded yet.
    pub fn is_empty(&self) -> (b: bool)
        ensures
            b == (self@.len() == 0),
    {
        self.log.len() == 0
    }

    /// The task that was recorded as number `i`, counting from zero, or
    /// `None` when fewer were recorded.
    pub fn get(&self, i: usize) -> (task: Option<&ManualTask>)
        ensures
            task is Some <==> i < self@.len(),
            task is Some ==> task->0@ == self@[i as int],
    {
        if i < self.log.len() {
            Some(&self.log[i])
        } else {
            None
        }
    }

    /// All tasks recorded so far, oldest first.
    pub fn list(&self) -> (tasks: Vec<ManualTask>)
        ensures
            records_of(tasks@) == self@,
    {
        let mut tasks: Vec<ManualTask> = Vec::new();
        let n: usize = self.log.len();
        let mut i: usize = 0;
        while i < n
            invariant
                i <= n,
                n == self.log@.len(),
                tasks@.len() == i,
                forall|j: int| 0 <= j < i ==> tasks@[j]@ == self.log@[j]@,
            decreases n - i,
        {
            tasks.push(self.log[i].clone());
            i += 1;
        }
        assert(records_of(tasks@) =~= self@);
        tasks
    }
}

/// What was recorded stays, in its place: after one more record the log is
/// the old log with the new record at its end, and after two records the
/// earlier one stands before the later one.
pub proof fn lemma_log_only_grows(
    log: Seq<ManualTaskRecord>,
    first: ManualTaskRecord,
    second: ManualTaskRecord,
)
    ensures
        log.push(first).len() == log.len() + 1,
        forall|i: int| 0 <= i < log.len() ==> log.push(first)[i] == log[i],
        log.push(first).push(second)[log.len() as int] == first,
        log.push(first).push(second)[log.len() as int + 1] == second,
        log.push(first).push(second).subrange(0, log.len() as int) == log,
{
    assert(log.push(first).push(second).subrange(0, log.len() as int) =~= log);
}

} // verus!

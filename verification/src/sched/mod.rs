//! Process scheduling: a fixed table of task slots served round-robin.
pub mod process;
pub mod task;

use vstd::prelude::*;
use crate::sched::task::{Task, TaskId};

verus! {

/// Maximum number of concurrent tasks.
pub const MAX_TASKS: usize = 64;

/// `i` is the first free slot of `slots`.
pub open spec fn is_first_free(slots: Seq<Option<Task>>, i: int) -> bool {
    &&& 0 <= i < slots.len()
    &&& slots[i] is None
    &&& forall|j: int| 0 <= j < i ==> (#[trigger] slots[j]) is Some
}

/// Some slot of `slots` is free.
pub open spec fn has_free_slot(slots: Seq<Option<Task>>) -> bool {
    exists|i: int| 0 <= i < slots.len() && (#[trigger] slots[i]) is None
}

/// Number of occupied slots among the first `n`.
pub open spec fn occupied(slots: Seq<Option<Task>>, n: int) -> nat
    decreases n,
{
    if n <= 0 {
        0
    } else {
        occupied(slots, n - 1) + if slots[n - 1] is Some {
            1nat
        } else {
            0nat
        }
    }
}

/// A simple cooperative scheduler.
pub struct Scheduler {
    tasks: Vec<Option<Task>>,
    current_task_idx: usize,
}

impl Scheduler {
    /// The task slots.
    pub closed spec fn slots(&self) -> Seq<Option<Task>> {
        self.tasks@
    }

    /// Index of the currently running task.
    pub closed spec fn current(&self) -> usize {
        self.current_task_idx
    }

    /// Index of the currently running task.
    pub fn current_task_idx(&self) -> (i: usize)
        ensures
            i == self.current(),
    {
        self.current_task_idx
    }

    /// There are exactly `MAX_TASKS` slots.
    pub open spec fn wf(&self) -> bool {
        self.slots().len() == MAX_TASKS
    }

    /// Create a new scheduler: every slot free, current index 0.
    pub fn new() -> (s: Self)
        ensures
            s.wf(),
            s.current() == 0,
            forall|i: int| 0 <= i < MAX_TASKS ==> (#[trigger] s.slots()[i]) is None,
    {
        let mut tasks: Vec<Option<Task>> = Vec::with_capacity(MAX_TASKS);
        let mut i: usize = 0;
        while i < MAX_TASKS
            invariant
                i <= MAX_TASKS,
                tasks@.len() == i,
                forall|k: int| 0 <= k < i ==> (#[trigger] tasks@[k]) is None,
            decreases MAX_TASKS - i,
        {
            tasks.push(None);
            i += 1;
        }
        Self { tasks, current_task_idx: 0 }
    }

    /// Add a new task in the first free slot. Returns false, changing nothing,
    /// when every slot is taken.
    pub fn add_task(&mut self, task: Task) -> (ok: bool)
        requires
            old(self).wf(),
        ensures
            final(self).wf(),
            final(self).current() == old(self).current(),
            ok == has_free_slot(old(self).slots()),
            !ok ==> final(self).slots() == old(self).slots(),
            ok ==> exists|i: int|
                is_first_free(old(self).slots(), i) && final(self).slots() == old(
                    self,
                ).slots().update(i, Some(task)),
    {
        let n = self.tasks.len();
        let mut i: usize = 0;
        while i < n
            invariant
                n == self.tasks@.len(),
                n == MAX_TASKS,
                i <= n,
                self.tasks@ == old(self).tasks@,
                self.current_task_idx == old(self).current_task_idx,
                forall|j: int| 0 <= j < i ==> (#[trigger] self.tasks@[j]) is Some,
            decreases n - i,
        {
            if self.tasks[i].is_none() {
                self.tasks.set(i, Some(task));
                assert(is_first_free(old(self).tasks@, i as int));
                return true;
            }
            i += 1;
        }
        false
    }

    /// The task in slot `i`, if any.
    pub fn task(&self, i: usize) -> (t: Option<&Task>)
        requires
            i < self.slots().len(),
        ensures
            t matches Some(x) ==> self.slots()[i as int] == Some(*x),
            t is None <==> self.slots()[i as int] is None,
    {
        match &self.tasks[i] {
            Some(t) => Some(t),
            None => None,
        }
    }

    /// Advance to the next slot, wrapping round after the last (round-robin).
    pub fn schedule(&mut self)
        requires
            old(self).current() < usize::MAX,
        ensures
            final(self).current() == (old(self).current() + 1) % (MAX_TASKS as int),
            final(self).slots() == old(self).slots(),
    {
        self.current_task_idx = (self.current_task_idx + 1) % MAX_TASKS;
    }
}

/// Initialize the scheduler: the kernel task (id 0) takes the first free slot.
pub fn init(sched: &mut Scheduler) -> (ok: bool)
    requires
        old(sched).wf(),
    ensures
        final(sched).wf(),
        ok == has_free_slot(old(sched).slots()),
        ok ==> exists|i: int|
            is_first_free(old(sched).slots(), i) && (final(sched).slots()[i] matches Some(t)
                && t.id == TaskId(0)),
{
    let kernel_task = Task::new(0);
    sched.add_task(kernel_task)
}

/// Each successful `add_task` fills one more slot: a table whose slots are
/// all occupied refuses further tasks, and an added task lands in a slot that
/// was free while every slot before it was taken.
pub proof fn lemma_add_fills_one_slot(before: Seq<Option<Task>>, i: int, task: Task)
    requires
        is_first_free(before, i),
    ensures
        occupied(before.update(i, Some(task)), before.len() as int) == occupied(
            before,
            before.len() as int,
        ) + 1,
{
    lemma_occupied_update(before, i, task, before.len() as int);
}

proof fn lemma_occupied_update(s: Seq<Option<Task>>, i: int, task: Task, n: int)
    requires
        0 <= i < s.len(),
        s[i] is None,
        0 <= n <= s.len(),
    ensures
        occupied(s.update(i, Some(task)), n) == occupied(s, n) + if i < n {
            1nat
        } else {
            0nat
        },
    decreases n,
{
    if n > 0 {
        lemma_occupied_update(s, i, task, n - 1);
    }
}

/// A table with every slot occupied has no free slot.
pub proof fn lemma_full_table_refuses(s: Seq<Option<Task>>)
    requires
        occupied(s, s.len() as int) == s.len(),
    ensures
        !has_free_slot(s),
{
    lemma_occupied_bound(s, s.len() as int);
    if has_free_slot(s) {
        let i = choose|i: int| 0 <= i < s.len() && (#[trigger] s[i]) is None;
        lemma_occupied_missing(s, i, s.len() as int);
    }
}

proof fn lemma_occupied_bound(s: Seq<Option<Task>>, n: int)
    requires
        0 <= n <= s.len(),
    ensures
        occupied(s, n) <= n,
    decreases n,
{
    if n > 0 {
        lemma_occupied_bound(s, n - 1);
    }
}

proof fn lemma_occupied_missing(s: Seq<Option<Task>>, i: int, n: int)
    requires
        0 <= i < n <= s.len(),
        s[i] is None,
    ensures
        occupied(s, n) < n,
    decreases n,
{
    lemma_occupied_bound(s, n - 1);
    if i < n - 1 {
        lemma_occupied_missing(s, i, n - 1);
    }
}

} // verus!

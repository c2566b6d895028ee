//! The per-tab deferred task queue.
//!
//! A tab accumulates tasks that should run only later (for instance
//! once a document is cached); the engine drains the queue on each
//! interval tick and submits what comes out.

use vstd::prelude::*;

use crate::task_describe::TaskDescribe;

verus! {

/// Deferred tasks of one tab, drained in arrival order by the interval
/// tick.
pub struct TaskQueue {
    pub items: Vec<TaskDescribe>,
}

impl TaskQueue {
    /// How many tasks are waiting.
    pub open spec fn len(&self) -> nat {
        self.items@.len()
    }

    pub fn new() -> (r: TaskQueue)
        ensures
            r.items@.len() == 0,
    {
        TaskQueue { items: Vec::new() }
    }

    /// Park a task until the next drain.
    pub fn add(&mut self, task: TaskDescribe)
        ensures
            final(self).items@ == old(self).items@.push(task),
    {
        self.items.push(task);
    }

    /// Whether nothing is waiting.
    pub fn is_empty(&self) -> (r: bool)
        ensures
            r == (self.len() == 0),
    {
        self.items.len() == 0
    }

    /// Hand out every parked task, in arrival order, leaving the queue
    /// empty.
    pub fn retrieve_task_to_run(&mut self) -> (r: Vec<TaskDescribe>)
        ensures
            r@ == old(self).items@,
            final(self).items@.len() == 0,
    {
        let mut out: Vec<TaskDescribe> = Vec::new();
        core::mem::swap(&mut out, &mut self.items);
        out
    }
}

} // verus!

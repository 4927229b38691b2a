use std::collections::VecDeque;
use vstd::prelude::*;

verus! {

/// Identifier of a judging task: the 128-bit value of its UUID.
pub type TaskId = u128;

/// FIFO sequence of the tasks that wait for dispatch.
///
/// New tasks join at the back. A task whose dispatch failed transiently goes
/// back to the front, so that it is retried before the tasks behind it.
pub struct WaitingQueue {
    tasks: VecDeque<TaskId>,
}

impl View for WaitingQueue {
    type V = Seq<TaskId>;

    closed spec fn view(&self) -> Seq<TaskId> {
        self.tasks@
    }
}

impl WaitingQueue {
    /// An empty queue.
    pub fn new() -> (queue: Self)
        ensures
            queue@ == Seq::<TaskId>::empty(),
    {
        WaitingQueue { tasks: VecDeque::new() }
    }

    /// Number of waiting tasks.
    pub fn len(&self) -> (n: usize)
        ensures
            n == self@.len(),
    {
        self.tasks.len()
    }

    /// Appends a newly created task.
    pub fn enqueue_back(&mut self, task: TaskId)
        ensures
            final(self)@ == old(self)@.push(task),
    {
        self.tasks.push_back(task);
    }

    /// Puts a task back at the head of the queue.
    pub fn enqueue_front(&mut self, task: TaskId)
        ensures
            final(self)@ == seq![task] + old(self)@,
    {
        self.tasks.push_front(task);
    }

    /// Removes and returns the head of the queue, if there is one.
    pub fn dequeue_front(&mut self) -> (head: Option<TaskId>)
        ensures
            old(self)@.len() == 0 ==> head.is_none() && final(self)@ == old(self)@,
            old(self)@.len() > 0 ==> head == Some(old(self)@[0]) && final(self)@ == old(self)@.skip(1),
    {
        self.tasks.pop_front()
    }
}

} // verus!

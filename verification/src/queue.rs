//! A first-in, first-out queue.
use vstd::prelude::*;
use std::collections::VecDeque;
use crate::task::Task;

verus! {

/// A queue: what was pushed first is popped first.
pub struct Queue<T> {
    pub inner: VecDeque<T>,
}

impl<T> View for Queue<T> {
    type V = Seq<T>;

    open spec fn view(&self) -> Seq<T> {
        self.inner@
    }
}

impl<T> Queue<T> {
    pub fn new() -> (r: Queue<T>)
        ensures
            r@ == Seq::<T>::empty(),
    {
        Queue { inner: VecDeque::new() }
    }

    /// Puts `item` at the end of the queue.
    pub fn push(&mut self, item: T)
        ensures
            final(self)@ == old(self)@.push(item),
    {
        self.inner.push_back(item);
    }

    /// Takes the item at the front of the queue, if there is one.
    pub fn pop(&mut self) -> (r: Option<T>)
        ensures
            match r {
                Some(item) => old(self)@.len() > 0 && item == old(self)@[0]
                    && final(self)@ == old(self)@.skip(1),
                None => old(self)@.len() == 0 && final(self)@ == old(self)@,
            },
    {
        if self.inner.len() == 0 {
            return None;
        }
        let item = self.inner.pop_front();
        assert(self.inner@ == old(self).inner@.skip(1));
        item
    }

    pub fn len(&self) -> (r: usize)
        ensures
            r == self@.len(),
    {
        self.inner.len()
    }
}

/// A queue of tasks.
pub type TaskQueue = Queue<Task>;

/// An empty queue of tasks.
#[allow(non_snake_case)]
pub fn createTaskQueue() -> (r: TaskQueue)
    ensures
        r@ == Seq::<Task>::empty(),
{
    Queue::new()
}

} // verus!

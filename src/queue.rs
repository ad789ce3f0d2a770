use std::collections::VecDeque;
use vstd::prelude::*;

verus! {

/// A first-in first-out buffer that never holds more than a fixed number of
/// items.
///
/// Each direction of a session buffers its messages here rather than in a
/// bounded asynchronous channel such as `futures::channel::mpsc`: such a
/// channel's contents change under the receiving task at any moment, so no
/// contract on the sending side could say what it holds, and neither
/// first-in first-out order nor rejection when full could be stated, let
/// alone proved. Held in the session, the queue's contents are plain values
/// that every operation's contract speaks of; the tasks around it only wait
/// and wake.
pub struct BoundedQueue<T> {
    items: VecDeque<T>,
    capacity: usize,
}

impl<T> BoundedQueue<T> {
    /// What the queue holds, oldest first.
    pub closed spec fn contents(&self) -> Seq<T> {
        self.items@
    }

    /// The most items the queue may hold at once.
    pub closed spec fn cap(&self) -> nat {
        self.capacity as nat
    }

    pub open spec fn wf(&self) -> bool {
        &&& 0 < self.cap()
        &&& self.contents().len() <= self.cap()
    }

    pub open spec fn is_full_spec(&self) -> bool {
        self.contents().len() >= self.cap()
    }

    /// An empty queue holding at most `capacity` items.
    pub fn new(capacity: usize) -> (q: Self)
        requires
            0 < capacity,
        ensures
            q.wf(),
            q.contents() == Seq::<T>::empty(),
            q.cap() == capacity,
    {
        BoundedQueue { items: VecDeque::new(), capacity }
    }

    pub fn len(&self) -> (n: usize)
        ensures
            n == self.contents().len(),
    {
        self.items.len()
    }

    pub fn capacity(&self) -> (n: usize)
        ensures
            n == self.cap(),
    {
        self.capacity
    }

    pub fn is_empty(&self) -> (b: bool)
        ensures
            b == (self.contents().len() == 0),
    {
        self.items.len() == 0
    }

    pub fn is_full(&self) -> (b: bool)
        ensures
            b == self.is_full_spec(),
    {
        self.items.len() >= self.capacity
    }

    /// Appends `item` unless the queue is full; a full queue hands the item
    /// back and stays as it was.
    pub fn try_push(&mut self, item: T) -> (r: Result<(), T>)
        requires
            old(self).wf(),
        ensures
            final(self).wf(),
            final(self).cap() == old(self).cap(),
            old(self).is_full_spec() ==> r == Err::<(), T>(item) && final(self).contents()
                == old(self).contents(),
            !old(self).is_full_spec() ==> r is Ok && final(self).contents() == old(
                self,
            ).contents().push(item),
    {
        if self.items.len() >= self.capacity {
            Err(item)
        } else {
            self.items.push_back(item);
            Ok(())
        }
    }

    /// Removes and returns the oldest item.
    pub fn pop(&mut self) -> (r: Option<T>)
        requires
            old(self).wf(),
        ensures
            final(self).wf(),
            final(self).cap() == old(self).cap(),
            old(self).contents().len() == 0 ==> r is None && final(self).contents() == old(
                self,
            ).contents(),
            old(self).contents().len() > 0 ==> r == Some(old(self).contents()[0])
                && final(self).contents() == old(self).contents().drop_first(),
    {
        self.items.pop_front()
    }

    /// Removes every item and returns them, oldest first.
    pub fn drain(&mut self) -> (r: Vec<T>)
        requires
            old(self).wf(),
        ensures
            final(self).wf(),
            final(self).cap() == old(self).cap(),
            final(self).contents() == Seq::<T>::empty(),
            r@ == old(self).contents(),
    {
        let mut out: Vec<T> = Vec::new();
        while self.items.len() > 0
            invariant
                self.wf(),
                self.cap() == old(self).cap(),
                out@ + self.contents() == old(self).contents(),
            decreases self.contents().len(),
        {
            let item = self.items.pop_front();
            match item {
                Some(x) => {
                    out.push(x);
                    assert(out@ + self.contents() =~= old(self).contents());
                },
                None => {},
            }
        }
        assert(self.contents() =~= Seq::<T>::empty());
        assert(out@ =~= old(self).contents());
        out
    }
}

} // verus!

use std::collections::VecDeque;
use vstd::prelude::*;

verus! {

/// What a consumer gets when it asks the queue for the next item.
#[derive(Debug)]
pub enum Received<T> {
    /// The oldest pending item, now removed from the queue.
    Item(T),
    /// Nothing is pending but producers may still send: wait and ask again.
    Empty,
    /// The producer side is closed and everything sent has been handed out.
    Closed,
}

/// An unbounded FIFO hand-off queue with an explicit close.
///
/// Closing stops further sends but keeps what is already buffered: consumers
/// keep receiving the pending items, in order, and only then see `Closed`.
pub struct JobQueue<T> {
    items: VecDeque<T>,
    open: bool,
}

impl<T> JobQueue<T> {
    /// The items that were sent and not yet received, oldest first.
    pub closed spec fn pending(&self) -> Seq<T> {
        self.items@
    }

    /// Whether the producer side still accepts items.
    pub closed spec fn spec_is_open(&self) -> bool {
        self.open
    }

    /// An open queue with nothing pending.
    pub fn new() -> (r: JobQueue<T>)
        ensures
            r.pending() == Seq::<T>::empty(),
            r.spec_is_open(),
    {
        JobQueue { items: VecDeque::new(), open: true }
    }

    pub fn is_open(&self) -> (r: bool)
        ensures
            r == self.spec_is_open(),
    {
        self.open
    }

    pub fn len(&self) -> (r: usize)
        ensures
            r == self.pending().len(),
    {
        self.items.len()
    }

    /// Appends `item` at the back. Sending on a closed queue is a contract
    /// violation of the caller.
    pub fn send(&mut self, item: T)
        requires
            old(self).spec_is_open(),
        ensures
            final(self).pending() == old(self).pending().push(item),
            final(self).spec_is_open(),
    {
        self.items.push_back(item);
    }

    /// Takes the oldest pending item; reports `Empty` while open and drained,
    /// `Closed` once closed and drained.
    pub fn receive(&mut self) -> (r: Received<T>)
        ensures
            final(self).spec_is_open() == old(self).spec_is_open(),
            old(self).pending().len() > 0 ==> r == Received::Item(old(self).pending()[0])
                && final(self).pending() == old(self).pending().drop_first(),
            old(self).pending().len() == 0 ==> final(self).pending() == old(self).pending()
                && (if old(self).spec_is_open() {
                r == Received::<T>::Empty
            } else {
                r == Received::<T>::Closed
            }),
    {
        match self.items.pop_front() {
            Some(item) => Received::Item(item),
            None => {
                if self.open {
                    Received::Empty
                } else {
                    Received::Closed
                }
            },
        }
    }

    /// Closes the producer side; pending items stay and are still handed out.
    pub fn close(&mut self)
        ensures
            final(self).pending() == old(self).pending(),
            !final(self).spec_is_open(),
    {
        self.open = false;
    }
}

} // verus!

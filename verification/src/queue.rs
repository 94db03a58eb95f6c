//! First-in, first-out queues that refuse what they have no room for.
use std::collections::VecDeque;
use vstd::prelude::*;

verus! {

/// A queue of at most `capacity` items.
///
/// The view is the items in the order in which they leave.
#[derive(Debug)]
pub struct BoundedQueue<T> {
    items: VecDeque<T>,
    capacity: usize,
}

impl<T> View for BoundedQueue<T> {
    type V = Seq<T>;

    closed spec fn view(&self) -> Seq<T> {
        self.items@
    }
}

/// What is done to a queue.
#[derive(Debug, PartialEq, Eq)]
pub enum QueueStep<T> {
    Push(T),
    Pop,
}

/// The items of a queue after a step. An item without room is not added.
pub open spec fn after_step<T>(capacity: nat, items: Seq<T>, step: QueueStep<T>) -> Seq<T> {
    match step {
        QueueStep::Push(item) => if items.len() < capacity {
            items.push(item)
        } else {
            items
        },
        QueueStep::Pop => if items.len() > 0 {
            items.drop_first()
        } else {
            items
        },
    }
}

impl<T> BoundedQueue<T> {
    /// The number of items that the queue has room for.
    pub closed spec fn spec_capacity(&self) -> nat {
        self.capacity as nat
    }

    /// The queue has room for at least one item and never holds more than it has room for.
    pub open spec fn wf(&self) -> bool {
        &&& self.spec_capacity() > 0
        &&& self@.len() <= self.spec_capacity()
    }

    /// An empty queue with room for `capacity` items.
    pub fn new(capacity: usize) -> (queue: BoundedQueue<T>)
        requires
            capacity > 0,
        ensures
            queue.wf(),
            queue@ == Seq::<T>::empty(),
            queue.spec_capacity() == capacity,
    {
        BoundedQueue { items: VecDeque::new(), capacity }
    }

    /// Whether the queue has no room left.
    pub fn is_full(&self) -> (full: bool)
        requires
            self.wf(),
        ensures
            full == (self@.len() == self.spec_capacity()),
    {
        self.items.len() == self.capacity
    }

    /// Adds `item` at the end if there is room, and says whether there was.
    pub fn try_push(&mut self, item: T) -> (added: bool)
        requires
            old(self).wf(),
        ensures
            final(self).wf(),
            final(self).spec_capacity() == old(self).spec_capacity(),
            added == (old(self)@.len() < old(self).spec_capacity()),
            final(self)@ == after_step(
                old(self).spec_capacity(),
                old(self)@,
                QueueStep::Push(item),
            ),
    {
        if self.items.len() == self.capacity {
            false
        } else {
            self.items.push_back(item);
            true
        }
    }

    /// Takes the item at the front, if there is one.
    pub fn pop(&mut self) -> (item: Option<T>)
        requires
            old(self).wf(),
        ensures
            final(self).wf(),
            final(self).spec_capacity() == old(self).spec_capacity(),
            item == (if old(self)@.len() > 0 {
                Some(old(self)@[0])
            } else {
                None
            }),
            final(self)@ == after_step(old(self).spec_capacity(), old(self)@, QueueStep::Pop),
    {
        self.items.pop_front()
    }
}

/// The items that are in a queue after `steps`.
pub open spec fn left<T>(capacity: nat, items: Seq<T>, steps: Seq<QueueStep<T>>) -> Seq<T>
    decreases steps.len(),
{
    if steps.len() == 0 {
        items
    } else {
        left(capacity, after_step(capacity, items, steps[0]), steps.drop_first())
    }
}

/// The items that `steps` add to a queue, in order.
pub open spec fn added<T>(capacity: nat, items: Seq<T>, steps: Seq<QueueStep<T>>) -> Seq<T>
    decreases steps.len(),
{
    if steps.len() == 0 {
        Seq::empty()
    } else {
        let rest = added(capacity, after_step(capacity, items, steps[0]), steps.drop_first());
        match steps[0] {
            QueueStep::Push(item) if items.len() < capacity => seq![item] + rest,
            _ => rest,
        }
    }
}

/// The items that `steps` take out of a queue, in order.
pub open spec fn taken<T>(capacity: nat, items: Seq<T>, steps: Seq<QueueStep<T>>) -> Seq<T>
    decreases steps.len(),
{
    if steps.len() == 0 {
        Seq::empty()
    } else {
        let rest = taken(capacity, after_step(capacity, items, steps[0]), steps.drop_first());
        match steps[0] {
            QueueStep::Pop if items.len() > 0 => seq![items[0]] + rest,
            _ => rest,
        }
    }
}

/// Items leave a queue in the order in which they came, each of them once: what was in the queue
/// and what was added is what was taken out and what is left. The queue never holds more than it
/// has room for.
pub proof fn law_queue_is_first_in_first_out<T>(
    capacity: nat,
    items: Seq<T>,
    steps: Seq<QueueStep<T>>,
)
    requires
        items.len() <= capacity,
    ensures
        items + added(capacity, items, steps) == taken(capacity, items, steps) + left(
            capacity,
            items,
            steps,
        ),
        left(capacity, items, steps).len() <= capacity,
    decreases steps.len(),
{
    if steps.len() > 0 {
        let next = after_step(capacity, items, steps[0]);
        let rest = steps.drop_first();
        law_queue_is_first_in_first_out(capacity, next, rest);
        let both = taken(capacity, next, rest) + left(capacity, next, rest);
        match steps[0] {
            QueueStep::Push(_) => {
                assert(items + added(capacity, items, steps) =~= next + added(
                    capacity,
                    next,
                    rest,
                ));
            },
            QueueStep::Pop => {
                if items.len() > 0 {
                    assert(items =~= seq![items[0]] + next);
                    assert(items + added(capacity, items, steps) =~= seq![items[0]] + (next + added(
                        capacity,
                        next,
                        rest,
                    )));
                    assert(taken(capacity, items, steps) + left(capacity, items, steps)
                        =~= seq![items[0]] + both);
                }
            },
        }
    }
}

} // verus!

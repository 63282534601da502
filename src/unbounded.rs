//! An unbounded sequence channel: items sent by any number of producer
//! handles are received in the order sent, by one consumer.
//!
//! There is no close message: the cell counts the producer handles that
//! exist, and a consumer that finds the queue empty and no producer left
//! learns that the sequence has ended.
use vstd::prelude::*;
use std::collections::VecDeque;
use crate::Poll;

verus! {

/// What the shared cell of a sequence channel holds.
pub ghost struct QueueState<T> {
    /// Items sent and not yet received, oldest first.
    pub items: Seq<T>,
    /// Whether a suspended consumer waits for a resumption.
    pub waiting: bool,
    /// How many producer handles exist.
    pub senders: nat,
    /// Whether the consumer handle still exists.
    pub open: bool,
    /// Which channel the cell belongs to.
    pub id: int,
}

/// One operation on a sequence channel, as a caller makes it.
pub ghost enum Op<T> {
    Send(T),
    Poll,
    Release,
}

impl<T> QueueState<T> {
    pub open spec fn after(self, op: Op<T>) -> QueueState<T> {
        match op {
            Op::Send(x) => self.after_send(x),
            Op::Poll => self.after_poll(),
            Op::Release => self.after_release(),
        }
    }

    /// The state after the operations `ops`, first to last.
    pub open spec fn run(self, ops: Seq<Op<T>>) -> QueueState<T>
        decreases ops.len(),
    {
        if ops.len() == 0 {
            self
        } else {
            self.run(ops.drop_last()).after(ops.last())
        }
    }

    /// The items whose send was accepted during `ops`, in call order.
    pub open spec fn accepted(self, ops: Seq<Op<T>>) -> Seq<T>
        decreases ops.len(),
    {
        if ops.len() == 0 {
            Seq::empty()
        } else {
            let before = self.accepted(ops.drop_last());
            match ops.last() {
                Op::Send(x) => if self.run(ops.drop_last()).send_result(x) is Ok {
                    before.push(x)
                } else {
                    before
                },
                _ => before,
            }
        }
    }

    /// The items that the polls during `ops` returned, in call order.
    pub open spec fn received(self, ops: Seq<Op<T>>) -> Seq<T>
        decreases ops.len(),
    {
        if ops.len() == 0 {
            Seq::empty()
        } else {
            let before = self.received(ops.drop_last());
            match ops.last() {
                Op::Poll => match self.run(ops.drop_last()).poll_result() {
                    Poll::Ready(Some(x)) => before.push(x),
                    _ => before,
                },
                _ => before,
            }
        }
    }

    pub open spec fn after_send(self, item: T) -> QueueState<T> {
        if self.open {
            QueueState { items: self.items.push(item), waiting: false, ..self }
        } else {
            self
        }
    }

    /// `Ok(wake)` when the item is queued, where `wake` says that a suspended
    /// consumer must be resumed; the item itself once the consumer is gone.
    pub open spec fn send_result(self, item: T) -> Result<bool, T> {
        if self.open {
            Ok(self.waiting)
        } else {
            Err(item)
        }
    }

    pub open spec fn after_poll(self) -> QueueState<T> {
        if self.items.len() > 0 {
            QueueState { items: self.items.drop_first(), ..self }
        } else if self.senders == 0 {
            self
        } else {
            QueueState { waiting: true, ..self }
        }
    }

    /// The oldest item; `None` once the sequence has ended.
    pub open spec fn poll_result(self) -> Poll<Option<T>> {
        if self.items.len() > 0 {
            Poll::Ready(Some(self.items[0]))
        } else if self.senders == 0 {
            Poll::Ready(None)
        } else {
            Poll::Pending
        }
    }

    /// The state after sending each item of `xs`, first to last.
    pub open spec fn after_sends(self, xs: Seq<T>) -> QueueState<T>
        decreases xs.len(),
    {
        if xs.len() == 0 {
            self
        } else {
            self.after_sends(xs.drop_last()).after_send(xs.last())
        }
    }

    pub open spec fn after_clone(self) -> QueueState<T> {
        QueueState { senders: self.senders + 1, ..self }
    }

    pub open spec fn after_release(self) -> QueueState<T> {
        QueueState { senders: if self.senders > 0 { (self.senders - 1) as nat } else { 0 }, ..self }
    }

    pub open spec fn after_close(self) -> QueueState<T> {
        QueueState { items: Seq::empty(), waiting: false, open: false, ..self }
    }
}

/// The shared cell of a sequence channel.
pub struct Queue<T> {
    items: VecDeque<T>,
    waiting: bool,
    senders: usize,
    open: bool,
    id: Ghost<int>,
}

impl<T> View for Queue<T> {
    type V = QueueState<T>;

    closed spec fn view(&self) -> QueueState<T> {
        QueueState {
            items: self.items@,
            waiting: self.waiting,
            senders: self.senders as nat,
            open: self.open,
            id: self.id@,
        }
    }
}

impl<T> Queue<T> {
    /// How many producer handles exist.
    pub fn senders(&self) -> (r: usize)
        ensures
            r == self@.senders,
    {
        self.senders
    }

    /// How many items wait to be received.
    pub fn len(&self) -> (r: usize)
        ensures
            r == self@.items.len(),
    {
        self.items.len()
    }
}

/// A producer handle; it may be cloned.
pub struct Sender<T> {
    item: core::marker::PhantomData<T>,
    id: Ghost<int>,
}

/// The consumer handle; exactly one exists per channel.
pub struct Receiver<T> {
    item: core::marker::PhantomData<T>,
    id: Ghost<int>,
}

impl<T> Receiver<T> {
    /// The channel this handle belongs to.
    pub closed spec fn id(&self) -> int {
        self.id@
    }
}

/// Creates a channel: one producer handle, the consumer handle, and the empty
/// cell that they share, all three of one channel. `cap` is a hint for the
/// first allocation, no bound.
pub fn channel<T>(cap: usize) -> (r: (Sender<T>, Receiver<T>, Queue<T>))
    ensures
        r.2@ == (QueueState::<T> { items: Seq::empty(), waiting: false, senders: 1, open: true, id: r.2@.id }),
        r.0.id() == r.2@.id,
        r.1.id() == r.2@.id,
{
    let id: Ghost<int> = Ghost(arbitrary());
    let queue = Queue { items: VecDeque::with_capacity(cap), waiting: false, senders: 1, open: true, id };
    (
        Sender { item: core::marker::PhantomData, id },
        Receiver { item: core::marker::PhantomData, id },
        queue,
    )
}

impl<T> Sender<T> {
    /// The channel this handle belongs to.
    pub closed spec fn id(&self) -> int {
        self.id@
    }

    /// Appends `item` at the tail while the consumer exists, else hands it
    /// back. On success the result says whether the suspended consumer must
    /// now be resumed (once for this send, after the cell is released).
    pub fn send(&self, queue: &mut Queue<T>, item: T) -> (r: Result<bool, T>)
        requires
            self.id() == old(queue)@.id,
            old(queue)@.senders > 0,
        ensures
            r == old(queue)@.send_result(item),
            final(queue)@ == old(queue)@.after_send(item),
    {
        if queue.open {
            let wake = queue.waiting;
            queue.items.push_back(item);
            queue.waiting = false;
            Ok(wake)
        } else {
            Err(item)
        }
    }

    /// A second producer handle on the same channel.
    pub fn clone_on(&self, queue: &mut Queue<T>) -> (r: Sender<T>)
        requires
            self.id() == old(queue)@.id,
            old(queue)@.senders < usize::MAX,
        ensures
            final(queue)@ == old(queue)@.after_clone(),
            r.id() == self.id(),
    {
        queue.senders = queue.senders + 1;
        Sender { item: core::marker::PhantomData, id: self.id }
    }

    /// Discards this producer handle.
    pub fn release(self, queue: &mut Queue<T>)
        requires
            self.id() == old(queue)@.id,
        ensures
            final(queue)@ == old(queue)@.after_release(),
    {
        if queue.senders > 0 {
            queue.senders = queue.senders - 1;
        }
    }
}

impl<T> Receiver<T> {
    /// Takes the oldest item if there is one. With none queued, reports the
    /// end of the sequence when no producer handle is left, and otherwise
    /// records that the consumer is suspended.
    pub fn poll(&mut self, queue: &mut Queue<T>) -> (r: Poll<Option<T>>)
        requires
            old(self).id() == old(queue)@.id,
        ensures
            final(self).id() == old(self).id(),
            r == old(queue)@.poll_result(),
            final(queue)@ == old(queue)@.after_poll(),
    {
        match queue.items.pop_front() {
            Some(v) => Poll::Ready(Some(v)),
            None => {
                if queue.senders == 0 {
                    Poll::Ready(None)
                } else {
                    queue.waiting = true;
                    Poll::Pending
                }
            },
        }
    }

    /// Discards the consumer: queued items are dropped and every later send
    /// is refused.
    pub fn close(self, queue: &mut Queue<T>)
        requires
            self.id() == old(queue)@.id,
        ensures
            final(queue)@ == old(queue)@.after_close(),
    {
        queue.items.clear();
        queue.waiting = false;
        queue.open = false;
    }
}

/// Items sent one after another are received in the order sent.
pub proof fn fifo_order<T>(s: QueueState<T>, a: T, b: T, c: T)
    requires
        s.open,
        s.items.len() == 0,
    ensures
        ({
            let t = s.after_send(a).after_send(b).after_send(c);
            &&& t.poll_result() == Poll::Ready(Some(a))
            &&& t.after_poll().poll_result() == Poll::Ready(Some(b))
            &&& t.after_poll().after_poll().poll_result() == Poll::Ready(Some(c))
        }),
{
    let t = s.after_send(a).after_send(b).after_send(c);
    assert(t.items =~= seq![a, b, c]);
    assert(t.after_poll().items =~= seq![b, c]);
    assert(t.after_poll().after_poll().items =~= seq![c]);
}

/// While the consumer exists, items sent one after another join the queue
/// behind what it holds, in the order sent, and none is refused.
pub proof fn sends_keep_order<T>(s: QueueState<T>, xs: Seq<T>)
    requires
        s.open,
    ensures
        s.after_sends(xs).items == s.items + xs,
        s.after_sends(xs).open,
    decreases xs.len(),
{
    if xs.len() > 0 {
        sends_keep_order(s, xs.drop_last());
        assert(s.items + xs =~= (s.items + xs.drop_last()).push(xs.last()));
    } else {
        assert(s.items + xs =~= s.items);
    }
}

/// The channel behaves as a first-in-first-out queue under any interleaving
/// of sends, polls and releases: what it held plus every accepted item, in
/// call order, is exactly what the polls returned followed by what it still
/// holds. So the items received are a prefix of those sent, none lost,
/// repeated or reordered.
pub proof fn channel_is_fifo<T>(s: QueueState<T>, ops: Seq<Op<T>>)
    ensures
        s.items + s.accepted(ops) == s.received(ops) + s.run(ops).items,
        s.received(ops) == (s.items + s.accepted(ops)).subrange(0, s.received(ops).len() as int),
    decreases ops.len(),
{
    if ops.len() == 0 {
        assert(s.items + s.accepted(ops) =~= s.received(ops) + s.run(ops).items);
    } else {
        let p = ops.drop_last();
        channel_is_fifo(s, p);
        let t = s.run(p);
        match ops.last() {
            Op::Send(x) => {
                if t.open {
                    assert(s.items + s.accepted(ops) =~= (s.items + s.accepted(p)).push(x));
                    assert(s.received(ops) + s.run(ops).items =~= (s.received(p) + t.items).push(x));
                }
            },
            Op::Poll => {
                if t.items.len() > 0 {
                    assert(s.received(ops) + s.run(ops).items =~= s.received(p) + t.items);
                }
            },
            Op::Release => {},
        }
    }
    assert(s.received(ops) =~= (s.items + s.accepted(ops)).subrange(0, s.received(ops).len() as int));
}

/// Once the last producer handle is discarded and the queue is empty, a poll
/// reports the end of the sequence at once, registers no suspension, and
/// every later poll does the same.
pub proof fn ends_without_producers<T>(s: QueueState<T>)
    requires
        s.senders == 1,
        s.items.len() == 0,
    ensures
        s.after_release().poll_result() == Poll::<Option<T>>::Ready(None),
        s.after_release().after_poll() == s.after_release(),
{
}

/// A poll on an empty queue with a producer left suspends the consumer; the
/// next send asks for one resumption, a further send asks for none, and the
/// poll then yields the first item sent.
pub proof fn suspend_then_resume<T>(s: QueueState<T>, v: T, w: T)
    requires
        s.open,
        s.senders > 0,
        s.items.len() == 0,
    ensures
        s.poll_result() is Pending,
        s.after_poll().waiting,
        s.after_poll().send_result(v) == Ok::<bool, T>(true),
        s.after_poll().after_send(v).send_result(w) == Ok::<bool, T>(false),
        s.after_poll().after_send(v).poll_result() == Poll::Ready(Some(v)),
{
}

} // verus!

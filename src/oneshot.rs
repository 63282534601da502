//! A single-result channel: one value handed from a producer notification to
//! one consumer suspension point, at most once.
//!
//! The shared cell is a plain value here. Whoever holds the producer and the
//! consumer handles keeps the cell between them and passes it to each
//! operation; the operations decide what happens and report whether a
//! suspended consumer has to be resumed.
use vstd::prelude::*;
use crate::Poll;

verus! {

/// What the shared cell of a single-result channel holds.
pub ghost struct SlotState<T> {
    /// The value sent and not yet taken.
    pub value: Option<T>,
    /// Whether a value was ever accepted.
    pub sent: bool,
    /// Whether a suspended consumer waits for a resumption.
    pub waiting: bool,
    /// Whether the consumer handle still exists.
    pub open: bool,
    /// Which channel the cell belongs to.
    pub id: int,
}

impl<T> SlotState<T> {
    /// The consumer exists and nothing was sent yet.
    pub open spec fn is_fresh(self) -> bool {
        self.open && !self.sent && self.value is None
    }

    /// A send is accepted only by a live consumer that got nothing yet.
    pub open spec fn accepts(self) -> bool {
        self.open && !self.sent
    }

    pub open spec fn after_send(self, item: T) -> SlotState<T> {
        if self.accepts() {
            SlotState { value: Some(item), sent: true, waiting: false, ..self }
        } else {
            self
        }
    }

    /// `Ok(wake)` when the item is accepted, where `wake` says that a
    /// suspended consumer must be resumed; the item itself when refused.
    pub open spec fn send_result(self, item: T) -> Result<bool, T> {
        if self.accepts() {
            Ok(self.waiting)
        } else {
            Err(item)
        }
    }

    pub open spec fn after_poll(self) -> SlotState<T> {
        match self.value {
            Some(_) => SlotState { value: None, ..self },
            None => SlotState { waiting: true, ..self },
        }
    }

    pub open spec fn poll_result(self) -> Poll<T> {
        match self.value {
            Some(v) => Poll::Ready(v),
            None => Poll::Pending,
        }
    }

    pub open spec fn after_close(self) -> SlotState<T> {
        SlotState { value: None, waiting: false, open: false, ..self }
    }
}

/// The shared cell of a single-result channel.
pub struct Slot<T> {
    value: Option<T>,
    sent: bool,
    waiting: bool,
    open: bool,
    id: Ghost<int>,
}

impl<T> View for Slot<T> {
    type V = SlotState<T>;

    closed spec fn view(&self) -> SlotState<T> {
        SlotState {
            value: self.value,
            sent: self.sent,
            waiting: self.waiting,
            open: self.open,
            id: self.id@,
        }
    }
}

/// The producer handle. Only one send per channel is ever accepted.
pub struct Sender<T> {
    item: core::marker::PhantomData<T>,
    id: Ghost<int>,
}

/// The consumer handle; exactly one exists per channel.
pub struct Receiver<T> {
    item: core::marker::PhantomData<T>,
    id: Ghost<int>,
}

impl<T> Sender<T> {
    /// The channel this handle belongs to.
    pub closed spec fn id(&self) -> int {
        self.id@
    }
}

impl<T> Receiver<T> {
    /// The channel this handle belongs to.
    pub closed spec fn id(&self) -> int {
        self.id@
    }
}

/// Creates a channel: its producer handle, its consumer handle, and the empty
/// cell that they share, all three of one channel.
pub fn channel<T>() -> (r: (Sender<T>, Receiver<T>, Slot<T>))
    ensures
        r.2@ == (SlotState::<T> { value: None, sent: false, waiting: false, open: true, id: r.2@.id }),
        r.0.id() == r.2@.id,
        r.1.id() == r.2@.id,
{
    let id: Ghost<int> = Ghost(arbitrary());
    let slot = Slot { value: None, sent: false, waiting: false, open: true, id };
    (
        Sender { item: core::marker::PhantomData, id },
        Receiver { item: core::marker::PhantomData, id },
        slot,
    )
}

impl<T> Clone for Sender<T> {
    fn clone(&self) -> (r: Sender<T>)
        ensures
            r.id() == self.id(),
    {
        Sender { item: core::marker::PhantomData, id: self.id }
    }
}

impl<T> Sender<T> {
    /// Delivers `item` if the consumer still exists and nothing was delivered
    /// before; otherwise hands `item` back. On success the result says whether
    /// the suspended consumer must now be resumed (exactly once, after the
    /// cell is released).
    pub fn send(self, slot: &mut Slot<T>, item: T) -> (r: Result<bool, T>)
        requires
            self.id() == old(slot)@.id,
        ensures
            r == old(slot)@.send_result(item),
            final(slot)@ == old(slot)@.after_send(item),
    {
        if slot.open && !slot.sent {
            let wake = slot.waiting;
            slot.value = Some(item);
            slot.sent = true;
            slot.waiting = false;
            Ok(wake)
        } else {
            Err(item)
        }
    }
}

impl<T> Receiver<T> {
    /// Takes the delivered value if there is one; otherwise records that the
    /// consumer is suspended and waits for a resumption.
    pub fn poll(&mut self, slot: &mut Slot<T>) -> (r: Poll<T>)
        requires
            old(self).id() == old(slot)@.id,
        ensures
            final(self).id() == old(self).id(),
            r == old(slot)@.poll_result(),
            final(slot)@ == old(slot)@.after_poll(),
    {
        match slot.value.take() {
            Some(v) => Poll::Ready(v),
            None => {
                slot.waiting = true;
                Poll::Pending
            },
        }
    }

    /// Discards the consumer: any value not taken is dropped, and every later
    /// send is refused.
    pub fn close(self, slot: &mut Slot<T>)
        requires
            self.id() == old(slot)@.id,
        ensures
            final(slot)@ == old(slot)@.after_close(),
    {
        slot.value = None;
        slot.waiting = false;
        slot.open = false;
    }
}

/// A value sent on a fresh channel is received exactly once: the first poll
/// yields it, the next one suspends, and no later send is accepted, so no
/// poll after that can yield anything.
pub proof fn single_delivery<T>(s: SlotState<T>, v: T, w: T)
    requires
        s.is_fresh(),
    ensures
        s.after_send(v).poll_result() == Poll::Ready(v),
        s.after_send(v).after_poll().poll_result() is Pending,
        s.after_send(v).after_poll().send_result(w) == Err::<bool, T>(w),
        s.after_send(v).after_poll().after_send(w).after_poll().poll_result() is Pending,
{
}

/// Of two sends on one channel the second is refused and hands its value
/// back unchanged; the channel still yields the first value.
pub proof fn second_send_refused<T>(s: SlotState<T>, v1: T, v2: T)
    requires
        s.is_fresh(),
    ensures
        s.after_send(v1).send_result(v2) == Err::<bool, T>(v2),
        s.after_send(v1).after_send(v2) == s.after_send(v1),
        s.after_send(v1).after_send(v2).poll_result() == Poll::Ready(v1),
{
}

/// A poll before any send suspends the consumer; the first send then asks
/// for exactly one resumption, after which the poll yields that value.
pub proof fn suspend_then_resume<T>(s: SlotState<T>, v: T)
    requires
        s.is_fresh(),
    ensures
        s.poll_result() is Pending,
        s.after_poll().waiting,
        s.after_poll().send_result(v) == Ok::<bool, T>(true),
        !s.after_poll().after_send(v).waiting,
        s.after_poll().after_send(v).poll_result() == Poll::Ready(v),
{
}

} // verus!

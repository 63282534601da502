//! The decisions of a stepping cursor bridged into a sequence channel.
//!
//! Each firing of the cursor becomes one item of the channel: a record, the
//! end marker, or an error. The consumer side collapses what it receives into
//! "a record", "no more records" or "an error".
use vstd::prelude::*;
use crate::Poll;
use crate::unbounded::{Queue, QueueState, Receiver, Sender};

verus! {

/// One firing of the stepping cursor.
pub enum Step<V, E> {
    /// The cursor stands at a record: its key and its value.
    Record(Vec<u8>, V),
    /// The cursor has passed the last record of its range.
    End,
    /// The cursor reported an error in place of a record.
    Failed(E),
}

/// What travels through the channel for one firing: `Some(Ok(record))`,
/// `None` for the end of the range, `Some(Err(e))` for an error.
pub type Item<V, E> = Option<Result<(Vec<u8>, V), E>>;

/// The channel item that reports `step`.
pub open spec fn item_of<V, E>(step: Step<V, E>) -> Item<V, E> {
    match step {
        Step::Record(k, v) => Some(Ok((k, v))),
        Step::End => None,
        Step::Failed(e) => Some(Err(e)),
    }
}

/// What the consumer sees of a received item, or of the end of the channel
/// (`None`).
pub open spec fn outcome_of<V, E>(polled: Option<Item<V, E>>) -> Result<Option<(Vec<u8>, V)>, E> {
    match polled {
        Some(Some(Ok(p))) => Ok(Some(p)),
        Some(Some(Err(e))) => Err(e),
        _ => Ok(None),
    }
}

/// Whether `key` begins with `prefix`.
pub open spec fn has_prefix(key: Seq<u8>, prefix: Seq<u8>) -> bool {
    prefix.len() <= key.len() && key.subrange(0, prefix.len() as int) == prefix
}

/// Byte-wise lexicographic order: whether `a` sorts strictly before `b`.
pub open spec fn lex_lt(a: Seq<u8>, b: Seq<u8>) -> bool
    decreases a.len(),
{
    if a.len() == 0 {
        b.len() > 0
    } else if b.len() == 0 {
        false
    } else if a[0] != b[0] {
        a[0] < b[0]
    } else {
        lex_lt(a.drop_first(), b.drop_first())
    }
}

/// What a cursor that walks the keys from `prefix` upward, in ascending
/// order, does with `step` when only the keys that begin with `prefix` are
/// asked for: the item it sends and whether it advances. The first key
/// without the prefix lies past the range and ends it.
pub open spec fn step_in_range<V, E>(prefix: Seq<u8>, step: Step<V, E>) -> (Item<V, E>, bool) {
    match step {
        Step::Record(k, v) => if has_prefix(k@, prefix) {
            (item_of(step), true)
        } else {
            (None, false)
        },
        _ => (item_of(step), false),
    }
}

/// Whether `key` begins with `prefix`.
pub fn starts_with(key: &Vec<u8>, prefix: &Vec<u8>) -> (r: bool)
    ensures
        r == has_prefix(key@, prefix@),
{
    if prefix.len() > key.len() {
        return false;
    }
    let mut i: usize = 0;
    while i < prefix.len()
        invariant
            prefix.len() <= key.len(),
            i <= prefix.len(),
            forall|j: int| 0 <= j < i ==> key@[j] == prefix@[j],
        decreases prefix.len() - i,
    {
        if key[i] != prefix[i] {
            assert(key@.subrange(0, prefix.len() as int)[i as int] != prefix@[i as int]);
            return false;
        }
        i = i + 1;
    }
    assert(key@.subrange(0, prefix.len() as int) =~= prefix@);
    true
}

/// Whether sending `item` asks for the suspended consumer to be resumed.
pub open spec fn wakes<T>(s: QueueState<T>, item: T) -> bool {
    s.send_result(item) == Ok::<bool, T>(true)
}

/// Reports one firing of a cursor that walks the keys from `prefix` upward,
/// in ascending order, to the consumer, keeping to the keys that begin with
/// `prefix` (all keys when it is empty). Returns whether the cursor must be
/// told to advance, and whether the suspended consumer must be resumed. Once
/// the consumer is gone an item is dropped silently.
pub fn on_step<V, E>(
    prefix: &Vec<u8>,
    tx: &Sender<Item<V, E>>,
    queue: &mut Queue<Item<V, E>>,
    step: Step<V, E>,
) -> (r: (bool, bool))
    requires
        tx.id() == old(queue)@.id,
        old(queue)@.senders > 0,
    ensures
        r.0 == step_in_range(prefix@, step).1,
        final(queue)@ == old(queue)@.after_send(step_in_range(prefix@, step).0),
        r.1 == wakes(old(queue)@, step_in_range(prefix@, step).0),
{
    match step {
        Step::Record(k, v) => {
            if starts_with(&k, prefix) {
                (true, notify(tx, queue, Some(Ok((k, v)))))
            } else {
                (false, notify(tx, queue, None))
            }
        },
        Step::End => (false, notify(tx, queue, None)),
        Step::Failed(e) => (false, notify(tx, queue, Some(Err(e)))),
    }
}

/// Sends `item`, dropping it once the consumer is gone; returns whether the
/// suspended consumer must be resumed.
fn notify<T>(tx: &Sender<T>, queue: &mut Queue<T>, item: T) -> (wake: bool)
    requires
        tx.id() == old(queue)@.id,
        old(queue)@.senders > 0,
    ensures
        final(queue)@ == old(queue)@.after_send(item),
        wake == wakes(old(queue)@, item),
{
    match tx.send(queue, item) {
        Ok(wake) => wake,
        Err(_) => false,
    }
}

/// Reports that the command to advance the cursor failed: the error ends the
/// sequence. Returns whether the suspended consumer must be resumed.
pub fn on_advance_failed<V, E>(tx: &Sender<Item<V, E>>, queue: &mut Queue<Item<V, E>>, err: E) -> (wake: bool)
    requires
        tx.id() == old(queue)@.id,
        old(queue)@.senders > 0,
    ensures
        final(queue)@ == old(queue)@.after_send(Some(Err(err))),
        wake == wakes(old(queue)@, Some(Err(err))),
{
    notify(tx, queue, Some(Err(err)))
}

/// Collapses what the channel handed out: a record is returned, an error is
/// surfaced, and both the end marker and the end of the channel mean that no
/// record is left.
pub fn outcome<V, E>(polled: Option<Item<V, E>>) -> (r: Result<Option<(Vec<u8>, V)>, E>)
    ensures
        r == outcome_of(polled),
{
    match polled {
        Some(Some(Ok(p))) => Ok(Some(p)),
        Some(Some(Err(e))) => Err(e),
        _ => Ok(None),
    }
}

/// The consumer side of a cursor: the records of a range, one at a time.
pub struct Iter<V, E> {
    rx: Receiver<Item<V, E>>,
}

impl<V, E> Iter<V, E> {
    /// The channel this iterator reads.
    pub closed spec fn id(&self) -> int {
        self.rx.id()
    }

    /// Reads the records of the channel whose consumer handle is `rx`.
    pub fn new(rx: Receiver<Item<V, E>>) -> (r: Iter<V, E>)
        ensures
            r.id() == rx.id(),
    {
        Iter { rx }
    }

    /// The next record, `Ok(None)` when none is left, or the cursor's error;
    /// `Pending` while the cursor has not fired again.
    pub fn poll_next(&mut self, queue: &mut Queue<Item<V, E>>) -> (r: Poll<Result<Option<(Vec<u8>, V)>, E>>)
        requires
            old(self).id() == old(queue)@.id,
        ensures
            final(self).id() == old(self).id(),
            final(queue)@ == old(queue)@.after_poll(),
            r == (match old(queue)@.poll_result() {
                Poll::Ready(polled) => Poll::Ready(outcome_of(polled)),
                Poll::Pending => Poll::Pending,
            }),
    {
        match self.rx.poll(queue) {
            Poll::Ready(polled) => Poll::Ready(outcome(polled)),
            Poll::Pending => Poll::Pending,
        }
    }

    /// Discards the consumer; later firings of the cursor are dropped.
    pub fn close(self, queue: &mut Queue<Item<V, E>>)
        requires
            self.id() == old(queue)@.id,
        ensures
            final(queue)@ == old(queue)@.after_close(),
    {
        self.rx.close(queue);
    }
}

/// When no key begins with `prefix`, the first firing of the cursor (the
/// end of the store, or a key past the range) sends exactly one end marker
/// and does not advance the cursor; the consumer's first poll then reports
/// that no record is left.
pub proof fn empty_range_ends_at_once<V, E>(s: QueueState<Item<V, E>>, prefix: Seq<u8>, step: Step<V, E>)
    requires
        s.open,
        s.items.len() == 0,
        match step {
            Step::Record(k, _) => !has_prefix(k@, prefix),
            Step::End => true,
            Step::Failed(_) => false,
        },
    ensures
        step_in_range(prefix, step) == (None::<Result<(Vec<u8>, V), E>>, false),
        s.after_send(step_in_range(prefix, step).0).items == seq![None::<Result<(Vec<u8>, V), E>>],
        s.after_send(step_in_range(prefix, step).0).poll_result() == Poll::Ready(Some(None::<Result<(Vec<u8>, V), E>>)),
        outcome_of(Some(step_in_range(prefix, step).0)) == Ok::<Option<(Vec<u8>, V)>, E>(None),
{
    assert(s.after_send(step_in_range(prefix, step).0).items =~= seq![None::<Result<(Vec<u8>, V), E>>]);
}

/// With an empty prefix every record is passed on and the cursor advances.
pub proof fn empty_prefix_keeps_every_record<V, E>(k: Vec<u8>, v: V)
    ensures
        step_in_range(Seq::<u8>::empty(), Step::<V, E>::Record(k, v)) == (Some(Ok::<(Vec<u8>, V), E>((k, v))), true),
{
    assert(k@.subrange(0, 0) =~= Seq::<u8>::empty());
}

/// What a cursor over `records` sends, one firing per record and then the
/// end of the range, when it is driven until it no longer advances.
pub open spec fn walk<V, E>(prefix: Seq<u8>, records: Seq<(Vec<u8>, V)>) -> Seq<Item<V, E>>
    decreases records.len(),
{
    if records.len() == 0 {
        seq![None]
    } else {
        let (sent, advance) = step_in_range(prefix, Step::<V, E>::Record(records[0].0, records[0].1));
        if advance {
            seq![sent] + walk(prefix, records.drop_first())
        } else {
            seq![sent]
        }
    }
}

/// The records among `records` whose keys begin with `prefix`, in order, as
/// channel items.
pub open spec fn matching<V, E>(prefix: Seq<u8>, records: Seq<(Vec<u8>, V)>) -> Seq<Item<V, E>>
    decreases records.len(),
{
    if records.len() == 0 {
        Seq::empty()
    } else {
        let here: Seq<Item<V, E>> = if has_prefix(records[0].0@, prefix) {
            seq![Some(Ok(records[0]))]
        } else {
            Seq::empty()
        };
        here + matching(prefix, records.drop_first())
    }
}

/// Whether the keys of `records` ascend strictly.
pub open spec fn ascending<V>(records: Seq<(Vec<u8>, V)>) -> bool {
    forall|i: int, j: int| 0 <= i < j < records.len() ==> lex_lt(#[trigger] records[i].0@, #[trigger] records[j].0@)
}

proof fn prefix_step(a: Seq<u8>, p: Seq<u8>)
    requires
        a.len() > 0,
        p.len() > 0,
    ensures
        has_prefix(a, p) == (a[0] == p[0] && has_prefix(a.drop_first(), p.drop_first())),
{
    let n = p.len() as int;
    if n <= a.len() {
        assert(a.drop_first().subrange(0, n - 1) =~= a.subrange(0, n).drop_first());
        if has_prefix(a, p) {
            assert(a.subrange(0, n)[0] == a[0]);
            assert(p.drop_first() =~= a.subrange(0, n).drop_first());
        }
        if a[0] == p[0] && has_prefix(a.drop_first(), p.drop_first()) {
            assert(a.subrange(0, n) =~= p) by {
                assert forall|i: int| 0 <= i < n implies a.subrange(0, n)[i] == p[i] by {
                    if i > 0 {
                        assert(a.drop_first().subrange(0, n - 1)[i - 1] == p.drop_first()[i - 1]);
                    }
                }
            }
        }
    }
}

proof fn empty_prefix(a: Seq<u8>)
    ensures
        has_prefix(a, Seq::empty()),
{
    assert(a.subrange(0, 0) =~= Seq::<u8>::empty());
}

/// A key that lacks `prefix` and does not sort before it is past every key
/// that has it: any key after it lacks the prefix as well.
proof fn past_range(k: Seq<u8>, k2: Seq<u8>, p: Seq<u8>)
    requires
        !has_prefix(k, p),
        !lex_lt(k, p),
        lex_lt(k, k2),
    ensures
        !has_prefix(k2, p),
    decreases p.len(),
{
    if p.len() == 0 {
        assert(p =~= Seq::<u8>::empty());
        empty_prefix(k);
    } else if k2.len() > 0 {
        prefix_step(k2, p);
        if k[0] != p[0] {
            assert(k[0] > p[0]);
        } else if k2[0] == k[0] {
            prefix_step(k, p);
            assert(lex_lt(k, p) == lex_lt(k.drop_first(), p.drop_first()));
            assert(lex_lt(k, k2) == lex_lt(k.drop_first(), k2.drop_first()));
            past_range(k.drop_first(), k2.drop_first(), p.drop_first());
        } else {
            assert(k2[0] != p[0]);
        }
    }
}

proof fn none_matching<V, E>(prefix: Seq<u8>, records: Seq<(Vec<u8>, V)>)
    requires
        forall|j: int| 0 <= j < records.len() ==> !has_prefix(#[trigger] records[j].0@, prefix),
    ensures
        matching::<V, E>(prefix, records) == Seq::<Item<V, E>>::empty(),
    decreases records.len(),
{
    if records.len() > 0 {
        assert(!has_prefix(records[0].0@, prefix));
        assert forall|j: int| 0 <= j < records.drop_first().len() implies !has_prefix(
            #[trigger] records.drop_first()[j].0@,
            prefix,
        ) by {
            assert(records.drop_first()[j] == records[j + 1]);
        }
        none_matching::<V, E>(prefix, records.drop_first());
        assert(matching::<V, E>(prefix, records) =~= Seq::<Item<V, E>>::empty());
    }
}

/// A cursor that walks records in ascending key order from `prefix` upward,
/// driven until it no longer advances, sends exactly the records whose keys
/// begin with `prefix`, each once and in key order, and then the end marker.
pub proof fn walk_yields_matching_records<V, E>(prefix: Seq<u8>, records: Seq<(Vec<u8>, V)>)
    requires
        ascending(records),
        forall|i: int| 0 <= i < records.len() ==> !lex_lt(#[trigger] records[i].0@, prefix),
    ensures
        walk::<V, E>(prefix, records) == matching::<V, E>(prefix, records).push(None),
    decreases records.len(),
{
    if records.len() == 0 {
        assert(matching::<V, E>(prefix, records).push(None) =~= seq![None]);
    } else {
        let rest = records.drop_first();
        assert forall|i: int, j: int| 0 <= i < j < rest.len() implies lex_lt(
            #[trigger] rest[i].0@,
            #[trigger] rest[j].0@,
        ) by {
            assert(rest[i] == records[i + 1]);
            assert(rest[j] == records[j + 1]);
        }
        assert forall|i: int| 0 <= i < rest.len() implies !lex_lt(#[trigger] rest[i].0@, prefix) by {
            assert(rest[i] == records[i + 1]);
        }
        let k = records[0].0@;
        if has_prefix(k, prefix) {
            walk_yields_matching_records::<V, E>(prefix, rest);
            assert(walk::<V, E>(prefix, records) =~= matching::<V, E>(prefix, records).push(None));
        } else {
            assert(!lex_lt(k, prefix));
            assert forall|j: int| 0 <= j < rest.len() implies !has_prefix(#[trigger] rest[j].0@, prefix) by {
                assert(rest[j] == records[j + 1]);
                assert(lex_lt(records[0].0@, records[j + 1].0@));
                past_range(k, rest[j].0@, prefix);
            }
            none_matching::<V, E>(prefix, rest);
            assert(walk::<V, E>(prefix, records) =~= matching::<V, E>(prefix, records).push(None));
        }
    }
}

} // verus!

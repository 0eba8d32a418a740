//! The typed fan-out bus: one index of subscriber channels per message
//! type, the sealing of the bus after startup, and the non-blocking part
//! of a publication.
//!
//! The channels are bounded `tokio` channels of shared payloads. A
//! publication first offers the payload to every sender without waiting;
//! the senders whose channel was full are handed back as the pending list,
//! and the caller awaits one send to each of them, in order.
//!
//! While the bus is open, an index takes subscriptions, and a publication
//! drops the senders whose channel is closed. Sealing gives every index
//! its snapshot: the list of its senders at the moment of sealing. From
//! then on the index is published to by its snapshot, which never
//! changes.

use vstd::prelude::*;
use std::sync::Arc;
use crate::error::MicrobusError;
use smallvec::SmallVec;
use tokio::sync::mpsc::Receiver;
use tokio::sync::mpsc::Sender;
use tokio::sync::mpsc::error::TrySendError;

verus! {

/// The sending end of a bounded channel of `tokio`, opaque to the
/// verifier.
#[verifier::external_type_specification]
#[verifier::external_body]
#[verifier::reject_recursive_types(T)]
pub struct ExSender<T>(Sender<T>);

/// The receiving end of a bounded channel of `tokio`, opaque to the
/// verifier.
#[verifier::external_type_specification]
#[verifier::external_body]
#[verifier::reject_recursive_types(T)]
pub struct ExReceiver<T>(Receiver<T>);

/// The largest capacity that a channel can be made with: an eighth of
/// `usize::MAX`, which is `usize::MAX >> 3`.
pub const MAX_CAPACITY: usize = usize::MAX / 8;

/// How an attempt to send without waiting ended.
#[derive(Clone, Copy, Debug, PartialEq, Eq, Structural)]
pub enum SendOutcome {
    /// The payload is in the channel.
    Sent,
    /// The channel holds as many payloads as its capacity allows.
    Full,
    /// The receiving end is gone.
    Closed,
}

/// Calls `tokio::sync::mpsc::channel`, which panics for a capacity of 0
/// and for one above `usize::MAX >> 3`, which is `MAX_CAPACITY`. Nothing
/// is claimed of the two ends.
#[verifier::external_body]
fn bounded_channel<T>(capacity: usize) -> (ends: (Sender<Arc<T>>, Receiver<Arc<T>>))
    requires
        0 < capacity <= MAX_CAPACITY,
{
    tokio::sync::mpsc::channel::<Arc<T>>(capacity)
}

/// Calls `Sender::try_send` and tells its three results apart. Which of
/// them comes back depends on the state of the channel, so nothing is
/// claimed of it.
#[verifier::external_body]
fn try_send_shared<T>(tx: &Sender<Arc<T>>, payload: Arc<T>) -> (outcome: SendOutcome) {
    match tx.try_send(payload) {
        Ok(()) => SendOutcome::Sent,
        Err(TrySendError::Full(_)) => SendOutcome::Full,
        Err(TrySendError::Closed(_)) => SendOutcome::Closed,
    }
}

/// Calls `Sender::is_closed`. The answer depends on the state of the
/// channel, so nothing is claimed of it.
#[verifier::external_body]
fn sender_is_closed<T>(tx: &Sender<Arc<T>>) -> (closed: bool) {
    tx.is_closed()
}

/// Calls `Arc::from` on a vector: the items move, in their order, into a
/// slice that can be shared.
#[verifier::external_body]
fn share_all<S>(items: Vec<S>) -> (shared: Arc<[S]>)
    ensures
        shared@ == items@,
{
    Arc::from(items)
}

/// Positions in a list of senders, held in a `SmallVec` with room for
/// eight positions before it allocates: the senders whose channel is
/// open, or those that are still owed a send.
#[verifier::external_body]
pub struct PositionList {
    inner: SmallVec<[usize; 8]>,
}

/// The positions that a list holds, in the order in which they were
/// pushed.
pub uninterp spec fn position_items(list: PositionList) -> Seq<usize>;

/// Calls `SmallVec::new`: the new list holds nothing.
#[verifier::external_body]
fn positions_new() -> (list: PositionList)
    ensures
        position_items(list) == Seq::<usize>::empty(),
{
    PositionList { inner: SmallVec::new() }
}

/// Calls `SmallVec::push`: the position is appended. The source panics
/// where the grown capacity cannot be computed or laid out; the `requires`
/// leaves out the length at which the count itself would overflow, and
/// the other failures need a length that no machine holds.
#[verifier::external_body]
fn positions_push(list: &mut PositionList, position: usize)
    requires
        position_items(*old(list)).len() < usize::MAX,
    ensures
        position_items(*final(list)) == position_items(*old(list)).push(position),
{
    list.inner.push(position)
}

/// Calls `SmallVec::len`: the number of positions held.
#[verifier::external_body]
fn positions_len(list: &PositionList) -> (len: usize)
    ensures
        len == position_items(*list).len(),
{
    list.inner.len()
}

/// Indexes the `SmallVec`: the position held at `k`.
#[verifier::external_body]
fn positions_get(list: &PositionList, k: usize) -> (position: usize)
    requires
        k < position_items(*list).len(),
    ensures
        position == position_items(*list)[k as int],
{
    list.inner[k]
}

impl View for PositionList {
    type V = Seq<usize>;

    open spec fn view(&self) -> Seq<usize> {
        position_items(*self)
    }
}

impl PositionList {
    /// The positions as a vector.
    pub fn to_vec(&self) -> (out: Vec<usize>)
        ensures
            out@ == self@,
    {
        let n = positions_len(self);
        let mut out: Vec<usize> = Vec::new();
        let mut k: usize = 0;
        while k < n
            invariant
                n == self@.len(),
                k <= n,
                out@ == self@.take(k as int),
            decreases n - k,
        {
            out.push(positions_get(self, k));
            k += 1;
        }
        out
    }

    /// The number of positions.
    pub fn len(&self) -> (n: usize)
        ensures
            n == self@.len(),
    {
        positions_len(self)
    }

    /// The pending positions parted for the awaited sends: all but the
    /// last get a clone of the payload, the last gets the payload itself.
    /// Nothing for an empty list.
    pub fn split_last(&self) -> (parts: Option<(Vec<usize>, usize)>)
        ensures
            self@.len() == 0 ==> parts is None,
            self@.len() > 0 ==> (parts matches Some(p) && p.0@ == self@.drop_last() && p.1
                == self@.last()),
    {
        let n = positions_len(self);
        if n == 0 {
            return None;
        }
        let mut init: Vec<usize> = Vec::new();
        let mut k: usize = 0;
        while k < n - 1
            invariant
                n == self@.len(),
                n > 0,
                k <= n - 1,
                init@ == self@.take(k as int),
            decreases n - 1 - k,
        {
            init.push(positions_get(self, k));
            k += 1;
        }
        Some((init, positions_get(self, n - 1)))
    }
}

/// The receiving end of one subscription.
#[verifier::reject_recursive_types(T)]
pub struct Subscription<T> {
    rx: Receiver<Arc<T>>,
}

impl<T> Subscription<T> {
    /// The receiving end that the subscription holds.
    pub closed spec fn receiver(self) -> Receiver<Arc<T>> {
        self.rx
    }

    /// Gives up the subscription for its receiving end, on which the
    /// caller awaits the payloads.
    pub fn into_receiver(self) -> (rx: Receiver<Arc<T>>)
        ensures
            rx == self.receiver(),
    {
        self.rx
    }
}

/// The subscribers of one message type. While the bus is open, new
/// senders are appended to the live list. Freezing moves the live list
/// into the snapshot, once; from then on the snapshot is what a
/// publication on the sealed bus goes to.
#[verifier::reject_recursive_types(T)]
pub struct TypeIndex<T> {
    any: Vec<Sender<Arc<T>>>,
    frozen_any: Option<Arc<[Sender<Arc<T>>]>>,
}

impl<T> Default for TypeIndex<T> {
    fn default() -> (index: Self)
        ensures
            index.live() == Seq::<Sender<Arc<T>>>::empty(),
            index.snapshot() is None,
    {
        TypeIndex::new()
    }
}

impl<T> TypeIndex<T> {
    /// The live list of senders.
    pub closed spec fn live(&self) -> Seq<Sender<Arc<T>>> {
        self.any@
    }

    /// The snapshot, once it was taken.
    pub closed spec fn snapshot(&self) -> Option<Seq<Sender<Arc<T>>>> {
        match self.frozen_any {
            Some(v) => Some(v@),
            None => None,
        }
    }

    /// An index without subscribers and without a snapshot.
    pub fn new() -> (index: Self)
        ensures
            index.live() == Seq::<Sender<Arc<T>>>::empty(),
            index.snapshot() is None,
    {
        TypeIndex { any: Vec::new(), frozen_any: None }
    }

    /// Takes the snapshot if none was taken yet: the live list becomes the
    /// snapshot and is left empty. A second call changes nothing.
    pub fn freeze(&mut self)
        ensures
            old(self).snapshot() is None ==> final(self).snapshot() == Some(old(self).live())
                && final(self).live() == Seq::<Sender<Arc<T>>>::empty(),
            old(self).snapshot() is Some ==> *final(self) == *old(self),
    {
        if self.frozen_any.is_none() {
            let mut taken: Vec<Sender<Arc<T>>> = Vec::new();
            std::mem::swap(&mut self.any, &mut taken);
            self.frozen_any = Some(share_all(taken));
        }
    }

    /// Whether the snapshot was taken.
    pub fn is_frozen(&self) -> (yes: bool)
        ensures
            yes == self.snapshot() is Some,
    {
        self.frozen_any.is_some()
    }

    /// The senders of the live list.
    pub fn live_senders(&self) -> (senders: &Vec<Sender<Arc<T>>>)
        ensures
            senders@ == self.live(),
    {
        &self.any
    }

    /// Drops from the live list the senders that are marked closed; the
    /// others stay in their order. The snapshot is not touched.
    fn remove_closed(&mut self, closed: &Vec<bool>)
        requires
            closed@.len() == old(self).live().len(),
        ensures
            final(self).live() == keep_open(old(self).live(), closed@, closed@.len() as int),
            final(self).snapshot() == old(self).snapshot(),
    {
        let ghost before = self.any@;
        let n = closed.len();
        let mut i: usize = 0;
        let mut kept: usize = 0;
        while i < n
            invariant
                n == closed@.len(),
                n == before.len(),
                i <= n,
                kept == keep_open(before, closed@, i as int).len(),
                kept <= i,
                self.any@ == keep_open(before, closed@, i as int) + before.subrange(
                    i as int,
                    n as int,
                ),
                self.frozen_any == old(self).frozen_any,
            decreases n - i,
        {
            if closed[i] {
                let _gone = self.any.remove(kept);
            } else {
                kept += 1;
            }
            i += 1;
        }
    }

    /// The senders of the snapshot, once it was taken.
    pub fn get_frozen_senders(&self) -> (senders: Option<&[Sender<Arc<T>>]>)
        ensures
            self.snapshot() is None ==> senders is None,
            self.snapshot() matches Some(s) ==> (senders matches Some(v) && v@ == s),
    {
        match &self.frozen_any {
            Some(shared) => Some(&**shared),
            None => None,
        }
    }
}

/// Of the first `n` senders, those that are not marked closed, in their
/// order.
pub open spec fn keep_open<S>(senders: Seq<S>, closed: Seq<bool>, n: int) -> Seq<S>
    decreases n,
{
    if n <= 0 {
        Seq::<S>::empty()
    } else if closed[n - 1] {
        keep_open(senders, closed, n - 1)
    } else {
        keep_open(senders, closed, n - 1).push(senders[n - 1])
    }
}

/// The positions below `n` that are not marked closed, in rising order.
pub open spec fn open_positions(closed: Seq<bool>, n: int) -> Seq<usize>
    decreases n,
{
    if n <= 0 {
        Seq::<usize>::empty()
    } else if closed[n - 1] {
        open_positions(closed, n - 1)
    } else {
        open_positions(closed, n - 1).push((n - 1) as usize)
    }
}

/// The positions below `n` whose attempt found the channel full, in
/// rising order.
pub open spec fn full_positions(outcomes: Seq<SendOutcome>, n: int) -> Seq<usize>
    decreases n,
{
    if n <= 0 {
        Seq::<usize>::empty()
    } else if outcomes[n - 1] == SendOutcome::Full {
        full_positions(outcomes, n - 1).push((n - 1) as usize)
    } else {
        full_positions(outcomes, n - 1)
    }
}

/// Whether every position lies below `bound`.
pub open spec fn below(positions: Seq<usize>, bound: nat) -> bool {
    forall|k: int| 0 <= k < positions.len() ==> #[trigger] positions[k] < bound
}

/// The positions that are not marked closed.
pub fn open_positions_of(closed: &Vec<bool>) -> (open: PositionList)
    ensures
        open@ == open_positions(closed@, closed@.len() as int),
{
    let mut open = positions_new();
    let mut i: usize = 0;
    while i < closed.len()
        invariant
            i <= closed.len(),
            open@ == open_positions(closed@, i as int),
            open@.len() <= i,
        decreases closed.len() - i,
    {
        if !closed[i] {
            positions_push(&mut open, i);
        }
        i += 1;
    }
    open
}

/// The positions that are still owed a send after the attempts: those
/// whose attempt found the channel full.
pub fn pending_of(outcomes: &Vec<SendOutcome>) -> (pending: PositionList)
    ensures
        pending@ == full_positions(outcomes@, outcomes@.len() as int),
{
    let mut pending = positions_new();
    let mut k: usize = 0;
    while k < outcomes.len()
        invariant
            k <= outcomes.len(),
            pending@ == full_positions(outcomes@, k as int),
            pending@.len() <= k,
        decreases outcomes.len() - k,
    {
        match outcomes[k] {
            SendOutcome::Full => {
                positions_push(&mut pending, k);
            },
            _ => {},
        }
        k += 1;
    }
    pending
}

/// Asks each sender whether its channel is closed.
pub fn probe_closed<T>(senders: &[Sender<Arc<T>>]) -> (closed: Vec<bool>)
    ensures
        closed@.len() == senders@.len(),
{
    let mut closed: Vec<bool> = Vec::new();
    let mut i: usize = 0;
    while i < senders.len()
        invariant
            i <= senders.len(),
            closed@.len() == i,
        decreases senders.len() - i,
    {
        closed.push(sender_is_closed(&senders[i]));
        i += 1;
    }
    closed
}

/// Offers a clone of the payload to each sender without waiting, in the
/// order of the senders.
pub fn try_send_each<T>(senders: &[Sender<Arc<T>>], arc: &Arc<T>) -> (outcomes: Vec<SendOutcome>)
    ensures
        outcomes@.len() == senders@.len(),
{
    let mut outcomes: Vec<SendOutcome> = Vec::new();
    let mut k: usize = 0;
    while k < senders.len()
        invariant
            k <= senders.len(),
            outcomes@.len() == k,
        decreases senders.len() - k,
    {
        outcomes.push(try_send_shared(&senders[k], arc.clone()));
        k += 1;
    }
    outcomes
}

/// Offers the payload to every sender without waiting and collects the
/// positions whose channel was full. Whatever the channels answered, the
/// pending list is made of the positions that answered `Full`, in order.
pub fn try_send_collect_pending<T>(senders: &[Sender<Arc<T>>], arc: &Arc<T>) -> (pending:
    PositionList)
    ensures
        pending_after(pending@, senders@.len()),
{
    let outcomes = try_send_each(senders, arc);
    pending_of(&outcomes)
}

/// What is owed after the attempt on a single sender: position 0 where
/// the attempt found the channel full, else nothing.
pub fn pending_of_one(outcome: SendOutcome) -> (pending: PositionList)
    ensures
        pending@ == full_positions(seq![outcome], 1),
{
    let mut pending = positions_new();
    match outcome {
        SendOutcome::Full => {
            positions_push(&mut pending, 0);
        },
        _ => {},
    }
    assert(full_positions(seq![outcome], 0) == Seq::<usize>::empty());
    pending
}

/// The non-blocking part of a publication to the senders: nothing for no
/// sender, one attempt for a single sender, and one attempt each for
/// more. The positions handed back are owed an awaited send.
pub fn publish_to_senders<T>(senders: &[Sender<Arc<T>>], arc: &Arc<T>) -> (pending: PositionList)
    ensures
        pending_after(pending@, senders@.len()),
{
    if senders.len() == 0 {
        pending_of(&Vec::new())
    } else if senders.len() == 1 {
        let outcome = try_send_shared(&senders[0], arc.clone());
        pending_of_one(outcome)
    } else {
        try_send_collect_pending(senders, arc)
    }
}

/// What is left of a publication after its non-blocking part: the shared
/// payload and the positions that are owed an awaited send. The positions
/// point into the snapshot when `frozen` is set, else into the live list
/// as the publication left it.
pub struct Publication<T> {
    pub payload: Arc<T>,
    pub frozen: bool,
    pub pending: PositionList,
}

/// What a subscription on a sealed bus is refused with.
pub const SEAL_VIOLATION: &'static str =
    "subscribe_type called after bus sealed: subscription graph is immutable after startup";

/// What a subscription is refused with on a bus whose capacity no channel
/// can have.
pub const NO_CAPACITY: &'static str = "channel capacity must be above 0 and at most MAX_CAPACITY";

/// Whether a subscription is taken.
pub enum Admission {
    /// It is taken.
    Admitted,
    /// It is refused: the bus is sealed, or the index has its snapshot.
    SealViolation,
    /// It is refused: no channel can have the capacity of the bus.
    NoCapacity,
}

/// Whether the bus takes a subscription on the index.
pub open spec fn admission<T>(bus: Bus, index: TypeIndex<T>) -> Admission {
    if bus.sealed() || index.snapshot() is Some {
        Admission::SealViolation
    } else if 0 < bus.capacity() <= MAX_CAPACITY {
        Admission::Admitted
    } else {
        Admission::NoCapacity
    }
}

/// The state of the bus that all message types share: the capacity of
/// every channel and whether the bus is sealed. The bus starts open and
/// stays sealed once it is sealed. A sealed bus takes no subscription,
/// and sealing gives every index its snapshot.
pub struct Bus {
    default_capacity: usize,
    sealed: bool,
}

impl Bus {
    /// The capacity that every subscription's channel is made with.
    pub closed spec fn capacity(&self) -> usize {
        self.default_capacity
    }

    /// Whether the bus is sealed.
    pub closed spec fn sealed(&self) -> bool {
        self.sealed
    }

    /// An open bus.
    pub fn new(default_capacity: usize) -> (bus: Self)
        ensures
            bus.capacity() == default_capacity,
            !bus.sealed(),
    {
        Bus { default_capacity, sealed: false }
    }

    /// The capacity that every subscription's channel is made with.
    pub fn default_capacity(&self) -> (capacity: usize)
        ensures
            capacity == self.capacity(),
    {
        self.default_capacity
    }

    /// Whether the bus is sealed.
    pub fn is_sealed(&self) -> (sealed: bool)
        ensures
            sealed == self.sealed(),
    {
        self.sealed
    }

    /// Seals the bus: from now on no subscription is taken. Sealing is
    /// completed by `seal_index` on every index, which takes the
    /// snapshots. Sealing a sealed bus changes nothing.
    pub fn seal(&mut self)
        ensures
            final(self).sealed(),
            final(self).capacity() == old(self).capacity(),
    {
        self.sealed = true;
    }

    /// The sealing of one index, which the caller makes for every index
    /// right after `seal`: on a sealed bus an index without a snapshot
    /// gets its live list as snapshot, once and for good. An index that
    /// has its snapshot stays as it is, and on an open bus nothing
    /// happens.
    pub fn seal_index<T>(&self, index: &mut TypeIndex<T>)
        ensures
            self.sealed() ==> final(index).snapshot() is Some,
            self.sealed() && old(index).snapshot() is None ==> {
                &&& final(index).snapshot() == Some(old(index).live())
                &&& final(index).live() == Seq::<Sender<Arc<T>>>::empty()
            },
            !self.sealed() || old(index).snapshot() is Some ==> *final(index) == *old(index),
    {
        if self.sealed {
            index.freeze();
        }
    }

    /// Whether a subscription can be made: the bus is open and its
    /// capacity is one that a channel can have.
    pub fn can_subscribe(&self) -> (yes: bool)
        ensures
            yes == (!self.sealed() && 0 < self.capacity() <= MAX_CAPACITY),
    {
        !self.sealed && 0 < self.default_capacity && self.default_capacity <= MAX_CAPACITY
    }

    /// Subscribes to the message type of `index`: makes a channel of the
    /// bus's capacity, appends its sender to the live list and hands out
    /// the receiving end. Only an open bus takes subscriptions, and only
    /// on an index whose snapshot is not taken.
    pub fn subscribe_type<T>(&self, index: &mut TypeIndex<T>) -> (sub: Subscription<T>)
        requires
            !self.sealed(),
            old(index).snapshot() is None,
            0 < self.capacity() <= MAX_CAPACITY,
        ensures
            final(index).live().len() == old(index).live().len() + 1,
            final(index).live().drop_last() == old(index).live(),
            final(index).snapshot() is None,
    {
        let (tx_local, rx) = bounded_channel::<T>(self.default_capacity);
        index.any.push(tx_local);
        Subscription { rx }
    }

    /// Subscribes like `subscribe_type` where the subscription is admitted,
    /// and refuses with an error where it is not: with the seal violation
    /// on a sealed bus and on an index whose snapshot is taken, and with
    /// the capacity error on a bus whose capacity no channel can have. A
    /// refusal is never silent and leaves the index as it was, so what a
    /// sealed bus publishes to never changes.
    pub fn try_subscribe_type<T>(&self, index: &mut TypeIndex<T>) -> (out: Result<
        Subscription<T>,
        MicrobusError,
    >)
        ensures
            match admission(*self, *old(index)) {
                Admission::Admitted => {
                    &&& out is Ok
                    &&& final(index).live().len() == old(index).live().len() + 1
                    &&& final(index).live().drop_last() == old(index).live()
                    &&& final(index).snapshot() is None
                },
                Admission::SealViolation => {
                    &&& out matches Err(MicrobusError::Other(msg)) && msg@ == SEAL_VIOLATION@
                    &&& *final(index) == *old(index)
                },
                Admission::NoCapacity => {
                    &&& out matches Err(MicrobusError::Other(msg)) && msg@ == NO_CAPACITY@
                    &&& *final(index) == *old(index)
                },
            },
    {
        if self.sealed || index.is_frozen() {
            Err(MicrobusError::Other(SEAL_VIOLATION))
        } else if !self.can_subscribe() {
            Err(MicrobusError::Other(NO_CAPACITY))
        } else {
            Ok(self.subscribe_type(index))
        }
    }

    /// The positions in the live list whose channel is not closed, as the
    /// channels answer at this moment.
    pub fn get_open_senders_unsealed<T>(&self, index: &TypeIndex<T>) -> (open: PositionList)
        ensures
            exists|closed: Seq<bool>|
                closed.len() == index.live().len() && open@ == #[trigger] open_positions(
                    closed,
                    closed.len() as int,
                ),
            below(open@, index.live().len()),
    {
        let closed = probe_closed(index.any.as_slice());
        let probed = closed.len();
        proof {
            lemma_open_positions_within(closed@, probed as int);
        }
        open_positions_of(&closed)
    }

    /// How many subscribers of the live list have an open channel, as the
    /// channels answer at this moment.
    pub fn debug_count_subscribers<T>(&self, index: &TypeIndex<T>) -> (count: usize)
        ensures
            exists|closed: Seq<bool>|
                closed.len() == index.live().len() && count == (#[trigger] open_positions(
                    closed,
                    closed.len() as int,
                )).len(),
            count <= index.live().len(),
    {
        let closed = probe_closed(index.any.as_slice());
        let probed = closed.len();
        proof {
            lemma_open_positions_within(closed@, probed as int);
        }
        open_positions_of(&closed).len()
    }

    /// The non-blocking part of a publication to the snapshot of an
    /// index: the payload is offered to every sender of the snapshot, in
    /// subscription order.
    pub fn publish_type_sealed<T>(&self, index: &TypeIndex<T>, arc: &Arc<T>) -> (pending:
        PositionList)
        requires
            index.snapshot() is Some,
        ensures
            pending_after(pending@, index.snapshot()->0.len()),
    {
        match index.get_frozen_senders() {
            Some(frozen) => publish_to_senders(frozen, arc),
            None => positions_new(),
        }
    }

    /// The non-blocking part of a publication on the open bus, to the
    /// live list of an index: the senders whose channel is closed, as the
    /// channels answer at this moment, are dropped from the list, and the
    /// payload is offered to every sender that is kept, in subscription
    /// order. The pending positions point into the list as it is kept.
    pub fn publish_type_unsealed<T>(&self, index: &mut TypeIndex<T>, arc: &Arc<T>) -> (pending:
        PositionList)
        requires
            !self.sealed(),
            old(index).snapshot() is None,
        ensures
            final(index).snapshot() is None,
            kept_of(final(index).live(), old(index).live()),
            pending_after(pending@, final(index).live().len()),
    {
        let closed = probe_closed(index.any.as_slice());
        index.remove_closed(&closed);
        publish_to_senders(index.any.as_slice(), arc)
    }

    /// Publishes a payload that is shared already to the subscribers of
    /// `index` as far as that goes without waiting, and hands back what
    /// is still owed. An index with a snapshot is published to its
    /// snapshot and stays as it is. An index without one, which only an
    /// open bus has, is published to its live list, from which the closed
    /// senders are dropped.
    pub fn publish_shared<T>(&self, index: &mut TypeIndex<T>, arc: Arc<T>) -> (publication:
        Publication<T>)
        requires
            self.sealed() ==> old(index).snapshot() is Some,
        ensures
            publication.payload == arc,
            published(*old(index), *final(index), publication),
    {
        if index.is_frozen() {
            let pending = self.publish_type_sealed(index, &arc);
            Publication { payload: arc, frozen: true, pending }
        } else {
            let pending = self.publish_type_unsealed(index, &arc);
            Publication { payload: arc, frozen: false, pending }
        }
    }

    /// Publishes `msg` like `publish_shared`, after wrapping it for
    /// sharing: every subscriber gets the same payload.
    pub fn publish_type<T>(&self, index: &mut TypeIndex<T>, msg: T) -> (publication: Publication<T>)
        requires
            self.sealed() ==> old(index).snapshot() is Some,
        ensures
            *publication.payload == msg,
            published(*old(index), *final(index), publication),
    {
        self.publish_shared(index, Arc::new(msg))
    }
}

/// What a publication does to an index and leaves pending. An index with
/// a snapshot stays as it is and every sender of the snapshot is
/// attempted. From the live list of an index without one the closed
/// senders are dropped, and every sender that is kept is attempted.
pub open spec fn published<T>(
    before: TypeIndex<T>,
    after: TypeIndex<T>,
    publication: Publication<T>,
) -> bool {
    &&& publication.frozen == before.snapshot() is Some
    &&& after.snapshot() == before.snapshot()
    &&& before.snapshot() matches Some(s) ==> after == before && pending_after(
        publication.pending@,
        s.len(),
    )
    &&& before.snapshot() is None ==> {
        &&& kept_of(after.live(), before.live())
        &&& pending_after(publication.pending@, after.live().len())
    }
}

/// Whether `pending` is what the attempts on every sender of a list of
/// `n` senders can leave: the positions whose attempt found the channel
/// full, in rising order, whatever the channels answered.
pub open spec fn pending_after(pending: Seq<usize>, n: nat) -> bool {
    exists|outcomes: Seq<SendOutcome>|
        outcomes.len() == n && pending == #[trigger] full_positions(outcomes, n as int)
}

/// Whether `kept` is `before` without the senders that some answers of
/// the channels mark closed.
pub open spec fn kept_of<S>(kept: Seq<S>, before: Seq<S>) -> bool {
    exists|closed: Seq<bool>|
        closed.len() == before.len() && kept == #[trigger] keep_open(
            before,
            closed,
            closed.len() as int,
        )
}

/// A sequence with one more element holds what it held before, and that
/// element.
proof fn lemma_push_contains(s: Seq<usize>, last: usize, p: usize)
    ensures
        s.push(last).contains(p) <==> s.contains(p) || p == last,
{
    let pushed = s.push(last);
    if s.contains(p) {
        let j = choose|j: int| 0 <= j < s.len() && s[j] == p;
        assert(pushed[j] == p);
    }
    if p == last {
        assert(pushed[s.len() as int] == p);
    }
    if pushed.contains(p) && p != last {
        let j = choose|j: int| 0 <= j < pushed.len() && pushed[j] == p;
    }
}

/// Positions that all lie below a bound hold no position at or above it.
proof fn lemma_bounded_lacks(s: Seq<usize>, bound: nat, p: usize)
    requires
        below(s, bound),
        p >= bound,
    ensures
        !s.contains(p),
{
    if s.contains(p) {
        let j = choose|j: int| 0 <= j < s.len() && s[j] == p;
    }
}

/// The open positions rise strictly and lie below `n`; a position below
/// `n` is among them exactly when it is not marked closed.
pub proof fn lemma_open_positions_within(closed: Seq<bool>, n: int)
    requires
        0 <= n <= closed.len(),
        n <= usize::MAX,
    ensures
        open_positions(closed, n).len() <= n,
        below(open_positions(closed, n), n as nat),
        rising(open_positions(closed, n)),
        forall|p: int|
            0 <= p < n ==> (open_positions(closed, n).contains(p as usize) <==> !closed[p]),
    decreases n,
{
    if n > 0 {
        lemma_open_positions_within(closed, n - 1);
        let prev = open_positions(closed, n - 1);
        let last = (n - 1) as usize;
        lemma_bounded_lacks(prev, (n - 1) as nat, last);
        assert forall|p: int| 0 <= p < n implies (open_positions(closed, n).contains(p as usize)
            <==> !closed[p]) by {
            lemma_push_contains(prev, last, p as usize);
        }
    }
}

/// Whether the positions rise strictly, so that none stands twice.
pub open spec fn rising(positions: Seq<usize>) -> bool {
    forall|j: int, k: int| 0 <= j < k < positions.len() ==> positions[j] < positions[k]
}

/// Each sender is served once. The pending positions rise strictly and
/// lie below `n`, and a position is pending exactly when its attempt
/// found the channel full: no sender whose channel was full is dropped,
/// none is sent to twice, and a sender whose attempt was taken or whose
/// channel is closed is not sent to again.
pub proof fn lemma_pending_once(outcomes: Seq<SendOutcome>, n: int)
    requires
        0 <= n <= outcomes.len(),
        n <= usize::MAX,
    ensures
        full_positions(outcomes, n).len() <= n,
        below(full_positions(outcomes, n), n as nat),
        rising(full_positions(outcomes, n)),
        forall|p: int|
            0 <= p < n ==> (full_positions(outcomes, n).contains(p as usize) <==> outcomes[p]
                == SendOutcome::Full),
    decreases n,
{
    if n > 0 {
        lemma_pending_once(outcomes, n - 1);
        let prev = full_positions(outcomes, n - 1);
        let last = (n - 1) as usize;
        lemma_bounded_lacks(prev, (n - 1) as nat, last);
        assert forall|p: int| 0 <= p < n implies (full_positions(outcomes, n).contains(p as usize)
            <==> outcomes[p] == SendOutcome::Full) by {
            lemma_push_contains(prev, last, p as usize);
        }
    }
}

/// The senders that are kept are those at the open positions, in the
/// same order.
pub proof fn lemma_kept_are_open<S>(senders: Seq<S>, closed: Seq<bool>, n: int)
    requires
        0 <= n <= senders.len(),
        n <= closed.len(),
        n <= usize::MAX,
    ensures
        keep_open(senders, closed, n).len() == open_positions(closed, n).len(),
        forall|k: int|
            0 <= k < open_positions(closed, n).len() ==> 0 <= #[trigger] open_positions(closed, n)[k]
                < n && keep_open(senders, closed, n)[k] == senders[open_positions(
                closed,
                n,
            )[k] as int],
    decreases n,
{
    if n > 0 {
        lemma_kept_are_open(senders, closed, n - 1);
    }
}

/// Subscribing after the seal is loud: a sealed bus admits no
/// subscription, whatever the index and the capacity, and neither does an
/// index that has its snapshot. The refusal is the seal violation, which
/// `try_subscribe_type` returns as an error while it leaves the index as
/// it was.
pub proof fn lemma_subscribe_after_seal_is_loud<T>(bus: Bus, index: TypeIndex<T>)
    requires
        bus.sealed() || index.snapshot() is Some,
    ensures
        admission(bus, index) == Admission::SealViolation,
{
}

/// A snapshot is never changed: a publication leaves the snapshot of an
/// index as it finds it, so every publication on a sealed bus goes to the
/// senders of the moment of sealing, one attempt each.
pub proof fn lemma_snapshot_is_fixed<T>(
    before: TypeIndex<T>,
    after: TypeIndex<T>,
    publication: Publication<T>,
)
    requires
        published(before, after, publication),
        before.snapshot() is Some,
    ensures
        after == before,
        publication.frozen,
        pending_after(publication.pending@, before.snapshot()->0.len()),
{
}

} // verus!

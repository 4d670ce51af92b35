//! The relay: a request and reply channel between many callers and one
//! consumer inside a process.
//!
//! Callers push requests onto one unbounded queue, from which the consumer
//! takes them. Every call brings a reply slot of its own: a fresh queue whose
//! sending half travels with the request and whose receiving half stays with
//! the caller. The consumer keeps the slot of the request it received last and
//! replies into it, or hands it on to a responder. A reply therefore reaches
//! the caller it was made for, also when calls overlap and are answered out of
//! order. Every operation blocks the calling thread until it can complete.
//!
//! The queues belong to the `smol` crate and are shared between threads: what
//! an operation finds in them depends on what other threads did. The contracts
//! here therefore state which queue and which slot a handle holds and how each
//! outcome of a queue operation is reported, for every outcome, and nothing
//! about which outcome occurs.

use smol::channel::{Receiver, Sender};
use vstd::prelude::*;

verus! {

/// The sending half of a queue of the `smol` crate.
#[verifier::external_type_specification]
#[verifier::external_body]
#[verifier::reject_recursive_types(T)]
pub struct ExSender<T>(Sender<T>);

/// The receiving half of a queue of the `smol` crate.
#[verifier::external_type_specification]
#[verifier::external_body]
#[verifier::reject_recursive_types(T)]
pub struct ExReceiver<T>(Receiver<T>);

/// Why a relay operation failed.
#[derive(Debug, Clone, Copy, PartialEq, Eq, Structural)]
pub enum RelayError {
    /// Nobody is listening: the queue is closed, or there is no slot to reply
    /// into.
    SendError,
    /// The queue was closed and drained before a value arrived.
    ReceiveError,
}

/// The caller's handle: sends a request and waits for its reply.
#[derive(Debug)]
#[verifier::reject_recursive_types(T)]
#[verifier::reject_recursive_types(K)]
pub struct RelaySender<T, K> {
    tx: Sender<(T, Sender<K>)>,
}

/// A handle that can only reply, and only to one call: the one whose request
/// the consumer had received last when the handle was made. It lets the reply
/// be given apart from the receiving, on another thread or at a later time.
#[derive(Debug)]
#[verifier::reject_recursive_types(K)]
pub struct RelayResponder<K> {
    slot: Option<Sender<K>>,
}

/// The consumer's handle: takes requests and gives replies.
#[derive(Debug)]
#[verifier::reject_recursive_types(T)]
#[verifier::reject_recursive_types(K)]
pub struct RelayReceiver<T, K> {
    rx: Receiver<(T, Sender<K>)>,
    slot: Option<Sender<K>>,
}

/// `smol::channel::unbounded`: a new queue without a bound on its length.
/// Trusted; nothing is claimed of the two halves.
#[verifier::external_body]
fn unbounded<T>() -> (halves: (Sender<T>, Receiver<T>)) {
    smol::channel::unbounded()
}

/// `smol::channel::Sender::send_blocking`: pushes `value` onto the queue.
/// Trusted: a value that a closed queue refuses is handed back unchanged.
#[verifier::external_body]
fn push<T>(tx: &Sender<T>, value: T) -> (r: Result<(), T>)
    ensures
        r is Err ==> r->Err_0 == value,
{
    match tx.send_blocking(value) {
        Ok(()) => Ok(()),
        Err(refused) => Err(refused.into_inner()),
    }
}

/// `smol::channel::Receiver::recv_blocking`: waits for the next value of the
/// queue; `None` once the queue is closed and empty. Trusted; nothing is
/// claimed of the value.
#[verifier::external_body]
fn pull<T>(rx: &Receiver<T>) -> (value: Option<T>) {
    rx.recv_blocking().ok()
}

/// `Clone::clone` of `smol::channel::Sender`: another handle on the same queue.
/// Trusted: a sending half holds nothing but the queue it belongs to, and its
/// clone holds the same queue, so the clone equals the half it was made from.
#[verifier::external_body]
fn share<T>(tx: &Sender<T>) -> (other: Sender<T>)
    ensures
        other == *tx,
{
    tx.clone()
}

impl RelayError {
    /// The text of the error message.
    pub open spec fn message(self) -> Seq<char> {
        match self {
            RelayError::SendError => "Failed to send message"@,
            RelayError::ReceiveError => "Failed to receive message"@,
        }
    }

    /// Renders the error for a log line.
    pub fn to_string(&self) -> (text: String)
        ensures
            text@ == self.message(),
    {
        match self {
            RelayError::SendError => "Failed to send message".to_owned(),
            RelayError::ReceiveError => "Failed to receive message".to_owned(),
        }
    }
}

/// What a call comes to, given what the two queues did: a refused push is a
/// `SendError`, whatever the reply; after an accepted push the reply is the
/// result, and a reply queue that ended without one is a `ReceiveError`.
pub open spec fn relayed<T, K>(push: Result<(), T>, reply: Option<K>) -> Result<K, RelayError> {
    match push {
        Err(_) => Err(RelayError::SendError),
        Ok(()) => match reply {
            Some(value) => Ok(value),
            None => Err(RelayError::ReceiveError),
        },
    }
}

/// What taking a request comes to, given what the request queue handed out:
/// the request, or a `ReceiveError` when the queue ended without one.
pub open spec fn taken<T, K>(outcome: Option<(T, Sender<K>)>) -> Result<T, RelayError> {
    match outcome {
        Some(entry) => Ok(entry.0),
        None => Err(RelayError::ReceiveError),
    }
}

/// The slot that the consumer holds after taking a request, given what the
/// request queue handed out and the slot held before: the slot that came with
/// the request, or the old one when no request came.
pub open spec fn kept<T, K>(outcome: Option<(T, Sender<K>)>, slot: Option<Sender<K>>) -> Option<
    Sender<K>,
> {
    match outcome {
        Some(entry) => Some(entry.1),
        None => slot,
    }
}

/// How a push onto a queue is reported: a refused push is a `SendError`.
pub fn pushed<T>(outcome: Result<(), T>) -> (r: Result<(), RelayError>)
    ensures
        r == match outcome {
            Ok(()) => Ok::<(), RelayError>(()),
            Err(_) => Err::<(), RelayError>(RelayError::SendError),
        },
{
    match outcome {
        Ok(()) => Ok(()),
        Err(_) => Err(RelayError::SendError),
    }
}

/// How a pull from a queue is reported: the value, or a `ReceiveError` when
/// the queue ended without one.
pub fn pulled<T>(outcome: Option<T>) -> (r: Result<T, RelayError>)
    ensures
        r == match outcome {
            Some(value) => Ok::<T, RelayError>(value),
            None => Err::<T, RelayError>(RelayError::ReceiveError),
        },
{
    match outcome {
        Some(value) => Ok(value),
        None => Err(RelayError::ReceiveError),
    }
}

/// How a call is reported, from what the request queue made of the push and
/// what the reply slot handed out.
pub fn completed<T, K>(push: Result<(), T>, reply: Option<K>) -> (r: Result<K, RelayError>)
    ensures
        r == relayed(push, reply),
{
    match pushed(push) {
        Ok(()) => pulled(reply),
        Err(e) => Err(e),
    }
}

/// How a taken request is reported, and which slot the consumer holds
/// afterwards, from what the request queue handed out.
pub fn accepted<T, K>(outcome: Option<(T, Sender<K>)>, slot: Option<Sender<K>>) -> (r: (
    Result<T, RelayError>,
    Option<Sender<K>>,
))
    ensures
        r.0 == taken(outcome),
        r.1 == kept(outcome, slot),
{
    match outcome {
        Some((value, reply_to)) => (Ok(value), Some(reply_to)),
        None => (Err(RelayError::ReceiveError), slot),
    }
}

impl<T, K> RelaySender<T, K> {
    /// The half of the request queue onto which the handle puts requests.
    pub closed spec fn requests(&self) -> Sender<(T, Sender<K>)> {
        self.tx
    }

    fn new(tx: Sender<(T, Sender<K>)>) -> (sender: Self)
        ensures
            sender.requests() == tx,
    {
        RelaySender { tx }
    }

    /// Sends `value` to the consumer, together with a fresh reply slot, and
    /// waits for the reply that is put into that slot.
    ///
    /// Fails with `SendError` when the request queue is closed, in which case
    /// no reply is waited for, and with `ReceiveError` when the slot is given
    /// up before a reply was put into it.
    pub fn send(&self, value: T) -> (r: Result<K, RelayError>)
        ensures
            r is Err ==> r->Err_0 == RelayError::SendError || r->Err_0
                == RelayError::ReceiveError,
    {
        let (reply_to, slot) = unbounded();
        let push = push(&self.tx, (value, reply_to));
        let reply = if push.is_ok() {
            pull(&slot)
        } else {
            None
        };
        completed(push, reply)
    }
}

impl<K> RelayResponder<K> {
    /// The reply slot that the handle puts its reply into, if it has one.
    pub closed spec fn slot(&self) -> Option<Sender<K>> {
        self.slot
    }

    fn new(slot: Option<Sender<K>>) -> (responder: Self)
        ensures
            responder.slot() == slot,
    {
        RelayResponder { slot }
    }

    /// Gives `value` as the reply to the call that the handle belongs to.
    ///
    /// The only failure is `SendError`. It is certain when the handle has no
    /// slot, which is so when it was made before any request was received; it
    /// also comes when the caller no longer waits.
    pub fn respond(&self, value: K) -> (r: Result<(), RelayError>)
        ensures
            r is Err ==> r->Err_0 == RelayError::SendError,
            self.slot() is None ==> r is Err,
    {
        match &self.slot {
            Some(reply_to) => pushed(push(reply_to, value)),
            None => Err(RelayError::SendError),
        }
    }
}

impl<T, K> RelayReceiver<T, K> {
    /// The half of the request queue from which the handle takes requests.
    pub closed spec fn requests(&self) -> Receiver<(T, Sender<K>)> {
        self.rx
    }

    /// The reply slot of the request that was received last, if any was.
    pub closed spec fn slot(&self) -> Option<Sender<K>> {
        self.slot
    }

    fn new(rx: Receiver<(T, Sender<K>)>) -> (receiver: Self)
        ensures
            receiver.requests() == rx,
            receiver.slot() is None,
    {
        RelayReceiver { rx, slot: None }
    }

    /// Takes the next request, waiting until there is one, and keeps the reply
    /// slot that came with it in place of the one kept before.
    ///
    /// The only failure is `ReceiveError`: the request queue is closed and
    /// empty. The slot kept before then stays.
    pub fn receive(&mut self) -> (r: Result<T, RelayError>)
        ensures
            r is Err ==> r->Err_0 == RelayError::ReceiveError,
            r is Err ==> final(self).slot() == old(self).slot(),
            r is Ok ==> final(self).slot() is Some,
            final(self).requests() == old(self).requests(),
    {
        let outcome = pull(&self.rx);
        let (r, slot) = accepted(outcome, self.slot.take());
        self.slot = slot;
        r
    }

    /// A handle that replies to the call whose request was received last: it
    /// holds the reply slot that the receiver holds now, and keeps it when the
    /// receiver goes on to the next request.
    pub fn responder(&self) -> (responder: RelayResponder<K>)
        ensures
            responder.slot() == self.slot(),
    {
        let slot = match &self.slot {
            Some(reply_to) => Some(share(reply_to)),
            None => None,
        };
        RelayResponder::new(slot)
    }

    /// Gives `value` as the reply to the call whose request was received last.
    ///
    /// The only failure is `SendError`. It is certain before the first request
    /// was received; it also comes when the caller no longer waits.
    pub fn respond(&self, value: K) -> (r: Result<(), RelayError>)
        ensures
            r is Err ==> r->Err_0 == RelayError::SendError,
            self.slot() is None ==> r is Err,
    {
        self.responder().respond(value)
    }
}

impl<T, K> Clone for RelaySender<T, K> {
    /// Another handle for another caller, on the same request queue.
    fn clone(&self) -> (other: Self)
        ensures
            other.requests() == self.requests(),
    {
        RelaySender { tx: share(&self.tx) }
    }
}

/// A new relay: the handle for the callers and the handle for the consumer,
/// which has received nothing yet and so holds no reply slot.
pub fn channel<T, K>() -> (pair: (RelaySender<T, K>, RelayReceiver<T, K>))
    ensures
        pair.1.slot() is None,
{
    let (tx, rx) = unbounded();
    (RelaySender::new(tx), RelayReceiver::new(rx))
}

/// A relay as sequences and maps: the requests that were sent and not yet
/// received, oldest first, each with the number of its call, and for every
/// call the replies that were put into its slot and not yet collected.
pub struct Slots<T, K> {
    pub requests: Seq<(T, nat)>,
    pub replies: Map<nat, Seq<K>>,
}

impl<T, K> Slots<T, K> {
    /// The replies that wait in the slot of `call`.
    pub open spec fn replies_to(self, call: nat) -> Seq<K> {
        if self.replies.dom().contains(call) {
            self.replies[call]
        } else {
            Seq::empty()
        }
    }

    /// Whether no request is pending and every slot is empty.
    pub open spec fn idle(self) -> bool {
        self.requests.len() == 0 && forall|call: nat| #[trigger] self.replies_to(call).len() == 0
    }

    /// The relay after the caller of `call` sent `value`.
    pub open spec fn sent(self, call: nat, value: T) -> Self {
        Slots { requests: self.requests.push((value, call)), replies: self.replies }
    }

    /// The relay after the consumer received the oldest request.
    pub open spec fn received(self) -> Self {
        Slots { requests: self.requests.drop_first(), replies: self.replies }
    }

    /// The relay after the consumer put `value` into the slot of `call`.
    pub open spec fn responded(self, call: nat, value: K) -> Self {
        Slots {
            requests: self.requests,
            replies: self.replies.insert(call, self.replies_to(call).push(value)),
        }
    }

    /// The reply that the caller of `call` collects next, if one waits.
    pub open spec fn reply_of(self, call: nat) -> Option<K> {
        if self.replies_to(call).len() > 0 {
            Some(self.replies_to(call)[0])
        } else {
            None
        }
    }

    /// The relay after the caller of `call` collected the oldest reply of its
    /// slot.
    pub open spec fn collected(self, call: nat) -> Self {
        Slots {
            requests: self.requests,
            replies: self.replies.insert(call, self.replies_to(call).drop_first()),
        }
    }

    /// The relay after one call was carried through: the caller sent
    /// `request`, the consumer received a request and put `reply` into the
    /// slot of the call, and the caller collected from its slot.
    pub open spec fn round(self, call: nat, request: T, reply: K) -> Self {
        self.sent(call, request).received().responded(call, reply).collected(call)
    }

    /// The relay after the calls `calls`, each the number of the call, its
    /// request and the reply given to it, were carried through one after
    /// another.
    pub open spec fn rounds(self, calls: Seq<(nat, T, K)>) -> Self
        decreases calls.len(),
    {
        if calls.len() == 0 {
            self
        } else {
            self.rounds(calls.drop_last()).round(calls.last().0, calls.last().1, calls.last().2)
        }
    }
}

/// Sequential calls are correlated.
///
/// In an idle relay a call that is carried through before the next begins
/// gets its own reply: the consumer receives the request of that call, the
/// caller collects the reply that was given to it, and the relay is idle
/// afterwards. So it is after any number of earlier calls made in the same way.
///
/// This is a statement about queues and slots as sequences. That the queues of
/// the `smol` crate keep this order is their documented behaviour and is not
/// proved here.
pub proof fn lemma_sequential_calls_correlate<T, K>(
    slots: Slots<T, K>,
    earlier: Seq<(nat, T, K)>,
    call: nat,
    request: T,
    reply: K,
)
    requires
        slots.idle(),
    ensures
        slots.rounds(earlier).idle(),
        slots.rounds(earlier).sent(call, request).requests[0] == (request, call),
        slots.rounds(earlier).sent(call, request).received().responded(call, reply).reply_of(call)
            == Some(reply),
        slots.rounds(earlier).round(call, request, reply).idle(),
    decreases earlier.len(),
{
    if earlier.len() > 0 {
        lemma_sequential_calls_correlate(
            slots,
            earlier.drop_last(),
            earlier.last().0,
            earlier.last().1,
            earlier.last().2,
        );
    }
    let before = slots.rounds(earlier);
    assert(before.idle());
    let answered = before.sent(call, request).received().responded(call, reply);
    assert(answered.replies_to(call) == before.replies_to(call).push(reply));
    let after = before.round(call, request, reply);
    assert forall|other: nat| #[trigger] after.replies_to(other).len() == 0 by {
        if other == call {
            assert(after.replies_to(call) == answered.replies_to(call).drop_first());
        } else {
            assert(after.replies_to(other) == before.replies_to(other));
        }
    }
}

/// Overlapping calls are correlated, in whatever order they are answered.
///
/// Two calls are outstanding at once in an idle relay. The consumer receives
/// their requests in the order in which they were sent. Whether it then
/// answers the first call first or the second, each caller collects the reply
/// that was given to its own call.
///
/// This too is a statement about queues and slots as sequences, and not one
/// that is proved of the queues of the `smol` crate.
pub proof fn lemma_overlapping_calls_correlate<T, K>(
    slots: Slots<T, K>,
    first: nat,
    second: nat,
    requests: (T, T),
    replies: (K, K),
)
    requires
        slots.idle(),
        first != second,
    ensures
        ({
            let pending = slots.sent(first, requests.0).sent(second, requests.1);
            let seen = pending.received().received();
            let in_order = seen.responded(first, replies.0).responded(second, replies.1);
            let out_of_order = seen.responded(second, replies.1).responded(first, replies.0);
            &&& pending.requests[0] == (requests.0, first)
            &&& pending.received().requests[0] == (requests.1, second)
            &&& in_order.reply_of(first) == Some(replies.0)
            &&& in_order.reply_of(second) == Some(replies.1)
            &&& out_of_order.reply_of(first) == Some(replies.0)
            &&& out_of_order.reply_of(second) == Some(replies.1)
        }),
{
    let pending = slots.sent(first, requests.0).sent(second, requests.1);
    let seen = pending.received().received();
    assert(slots.replies_to(first).len() == 0);
    assert(slots.replies_to(second).len() == 0);
    assert(seen.replies_to(first) == slots.replies_to(first));
    assert(seen.replies_to(second) == slots.replies_to(second));
    let a = seen.responded(first, replies.0);
    assert(a.replies_to(first) == seen.replies_to(first).push(replies.0));
    assert(a.replies_to(second) == seen.replies_to(second));
    let in_order = a.responded(second, replies.1);
    assert(in_order.replies_to(second) == a.replies_to(second).push(replies.1));
    assert(in_order.replies_to(first) == a.replies_to(first));
    let b = seen.responded(second, replies.1);
    assert(b.replies_to(second) == seen.replies_to(second).push(replies.1));
    assert(b.replies_to(first) == seen.replies_to(first));
    let out_of_order = b.responded(first, replies.0);
    assert(out_of_order.replies_to(first) == b.replies_to(first).push(replies.0));
    assert(out_of_order.replies_to(second) == b.replies_to(second));
}

} // verus!

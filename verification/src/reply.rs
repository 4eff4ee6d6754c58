use vstd::pervasive::unreached;
use vstd::prelude::*;

use crate::message::{MessageError, MessageEvent, MessageResult, MessageType};

verus! {

/// A request that has been sent and waits for the result carrying its
/// correlation id. Results received meanwhile that belong to other requests
/// are handed back to the shared result channel.
pub struct PendingReply {
    origin: &'static str,
    correlation_id: u16,
}

/// The error a waiting request ends with, for a request sent as
/// `MessageEvent<T, R, E>`.
pub type ReplyError<T, R, E> = MessageError<MessageEvent<T, R, E>, E>;

impl PendingReply {
    /// The origin identifier of the waiting request.
    pub closed spec fn spec_origin(&self) -> &'static str {
        self.origin
    }

    /// The correlation id the waiting request was sent with.
    pub closed spec fn spec_correlation_id(&self) -> u16 {
        self.correlation_id
    }

    /// What the waiting request does with `received`. A result with this
    /// request's correlation id finishes it with the result's response, or
    /// with its error wrapped in `MessageError::MessageError`; a result with
    /// another correlation id is handed back, unchanged, to be requeued; the
    /// end of the result stream finishes it with `RecvError` naming this
    /// request.
    pub open spec fn next_step<T, R, E>(&self, received: Option<MessageResult<R, E>>) -> ReceiveStep<T, R, E> {
        match received {
            None => ReceiveStep::Finished(
                Err(MessageError::RecvError(self.spec_origin(), self.spec_correlation_id())),
            ),
            Some(res) => if res.spec_correlation_id() == self.spec_correlation_id() {
                ReceiveStep::Finished(delivered::<T, R, E>(res.spec_result()))
            } else {
                ReceiveStep::Requeue(res)
            },
        }
    }

    pub fn new(origin: &'static str, correlation_id: u16) -> (p: Self)
        ensures
            p.spec_origin() == origin,
            p.spec_correlation_id() == correlation_id,
    {
        PendingReply { origin, correlation_id }
    }

    pub fn origin(&self) -> (o: &'static str)
        ensures
            o == self.spec_origin(),
    {
        self.origin
    }

    pub fn correlation_id(&self) -> (c: u16)
        ensures
            c == self.spec_correlation_id(),
    {
        self.correlation_id
    }

    /// Decides what to do with the next value taken from the result
    /// channel; see `next_step`.
    pub fn on_receive<T, R, E>(&self, received: Option<MessageResult<R, E>>) -> (step: ReceiveStep<T, R, E>)
        ensures
            step == self.next_step::<T, R, E>(received),
    {
        match received {
            Some(result) => {
                if result.check_correlation(self.correlation_id) {
                    match result.result() {
                        Ok(v) => ReceiveStep::Finished(Ok(v)),
                        Err(e) => ReceiveStep::Finished(Err(MessageError::MessageError(e))),
                    }
                } else {
                    ReceiveStep::Requeue(result)
                }
            },
            None => ReceiveStep::Finished(Err(MessageError::RecvError(self.origin, self.correlation_id))),
        }
    }

    /// Decides what follows the requeue of a result that belongs to another
    /// request. `requeued` is the outcome of sending it back on the result
    /// channel: `Ok` when it was queued, `Err` with the result handed back
    /// when the channel refused it. After a successful requeue the request
    /// goes on waiting (`None`); after a refused one it finishes with
    /// `MisdirectedResultSendError` naming this request and the refused result.
    pub fn after_requeue<T, R, E>(&self, requeued: Result<(), MessageResult<R, E>>) -> (next: Option<
        Result<R, ReplyError<T, R, E>>,
    >)
        ensures
            requeued is Ok ==> next is None,
            requeued matches Err(refused) ==> next == Some(
                Err::<R, ReplyError<T, R, E>>(
                    MessageError::MisdirectedResultSendError {
                        origin: (self.spec_origin(), self.spec_correlation_id()),
                        result: (refused.spec_origin(), refused.spec_correlation_id()),
                    },
                ),
            ),
    {
        match requeued {
            Ok(()) => None,
            Err(refused) => Some(
                Err(
                    MessageError::MisdirectedResultSendError {
                        origin: (self.origin, self.correlation_id),
                        result: refused.id_pair(),
                    },
                ),
            ),
        }
    }
}

/// What a waiting request does with a value taken from the result channel:
/// finish with an outcome, or hand a result that belongs to another request
/// back to be requeued.
#[derive(Debug)]
#[verifier::reject_recursive_types(R)]
#[verifier::reject_recursive_types(E)]
pub enum ReceiveStep<T, R, E> {
    Finished(Result<R, ReplyError<T, R, E>>),
    Requeue(MessageResult<R, E>),
}

/// The response or error that a waiting request finishes with when it
/// receives a result carrying `result`.
pub open spec fn delivered<T, R, E>(result: Result<R, E>) -> Result<R, ReplyError<T, R, E>> {
    match result {
        Ok(v) => Ok(v),
        Err(e) => Err(MessageError::MessageError(e)),
    }
}

/// A reply built for an event (as `callback_ok`, `callback_err` and their
/// `try_` forms build it) reaches the request that sent the event: a request
/// waiting with the event's correlation id finishes with the reply's payload.
pub proof fn lemma_reply_reaches_its_request<T, R, E>(
    event: MessageEvent<T, R, E>,
    reply: MessageResult<R, E>,
    result: Result<R, E>,
    pending: PendingReply,
)
    requires
        event.is_reply(reply, result),
        pending.spec_correlation_id() == event.spec_correlation_id(),
    ensures
        pending.next_step::<T, R, E>(Some(reply)) == ReceiveStep::<T, R, E>::Finished(delivered::<T, R, E>(result)),
{
}

/// A reply to an event is never taken by a request waiting with another
/// correlation id: that request hands the reply back, unchanged, to be
/// requeued.
pub proof fn lemma_reply_skips_other_requests<T, R, E>(
    event: MessageEvent<T, R, E>,
    reply: MessageResult<R, E>,
    result: Result<R, E>,
    pending: PendingReply,
)
    requires
        event.is_reply(reply, result),
        pending.spec_correlation_id() != event.spec_correlation_id(),
    ensures
        pending.next_step::<T, R, E>(Some(reply)) == ReceiveStep::<T, R, E>::Requeue(reply),
{
}

/// A result finishes at most one of two requests waiting with different
/// correlation ids.
pub proof fn lemma_result_finishes_at_most_one<T, R, E>(
    received: MessageResult<R, E>,
    first: PendingReply,
    second: PendingReply,
)
    requires
        first.spec_correlation_id() != second.spec_correlation_id(),
    ensures
        !(first.next_step::<T, R, E>(Some(received)) is Finished && second.next_step::<T, R, E>(Some(received)) is Finished),
{
}

/// Two requests wait on the same result channel with different correlation
/// ids, and a result with the first one's id arrives: whichever of them takes
/// it, the first finishes with its payload and the second hands it back
/// unchanged, so it is never returned by the wrong request.
pub proof fn lemma_result_goes_to_its_request<T, R, E>(
    received: MessageResult<R, E>,
    owner: PendingReply,
    other: PendingReply,
)
    requires
        received.spec_correlation_id() == owner.spec_correlation_id(),
        owner.spec_correlation_id() != other.spec_correlation_id(),
    ensures
        owner.next_step::<T, R, E>(Some(received)) == ReceiveStep::<T, R, E>::Finished(
            delivered::<T, R, E>(received.spec_result()),
        ),
        other.next_step::<T, R, E>(Some(received)) == ReceiveStep::<T, R, E>::Requeue(received),
{
}

/// The run of a waiting request over the values `received`, taken from the
/// result channel in turn, when every requeue succeeds: the results it hands
/// back, in order, and the outcome it finishes with (`None` if it is still
/// waiting after the last value).
pub open spec fn wait_run<T, R, E>(pending: PendingReply, received: Seq<Option<MessageResult<R, E>>>) -> (
    Seq<MessageResult<R, E>>,
    Option<Result<R, ReplyError<T, R, E>>>,
)
    decreases received.len(),
{
    if received.len() == 0 {
        (Seq::empty(), None)
    } else {
        match pending.next_step::<T, R, E>(received[0]) {
            ReceiveStep::Finished(outcome) => (Seq::empty(), Some(outcome)),
            ReceiveStep::Requeue(result) => {
                let rest = wait_run::<T, R, E>(pending, received.drop_first());
                (seq![result] + rest.0, rest.1)
            },
        }
    }
}

/// True when `received` makes the waiting request finish: it is the end of
/// the result stream or a result with the request's correlation id.
pub open spec fn finishes<R, E>(pending: PendingReply, received: Option<MessageResult<R, E>>) -> bool {
    received matches Some(res) ==> res.spec_correlation_id() == pending.spec_correlation_id()
}

/// The results handed back for requeue, unchanged, from a prefix of received
/// values that are all results.
pub open spec fn unwrapped<R, E>(received: Seq<Option<MessageResult<R, E>>>) -> Seq<MessageResult<R, E>> {
    received.map_values(|v: Option<MessageResult<R, E>>| v->Some_0)
}

/// Over a whole wait: the request finishes at the first value that is the end
/// of the stream or a result with its correlation id, with the outcome that
/// value gives, and every result received before it belongs to another
/// request and is handed back unchanged, in order; none is dropped or taken.
pub proof fn lemma_wait_finishes_at_first_own_result<T, R, E>(
    pending: PendingReply,
    received: Seq<Option<MessageResult<R, E>>>,
    k: int,
)
    requires
        0 <= k < received.len(),
        finishes(pending, received[k]),
        forall|i: int| 0 <= i < k ==> !finishes(pending, #[trigger] received[i]),
    ensures
        pending.next_step::<T, R, E>(received[k]) is Finished,
        wait_run::<T, R, E>(pending, received).1 == Some(pending.next_step::<T, R, E>(received[k])->Finished_0),
        wait_run::<T, R, E>(pending, received).0 == unwrapped(received.take(k)),
    decreases k,
{
    if k == 0 {
        assert(unwrapped(received.take(0)) =~= Seq::<MessageResult<R, E>>::empty());
    } else {
        let tail = received.drop_first();
        assert(!finishes(pending, received[0]));
        assert forall|i: int| 0 <= i < k - 1 implies !finishes(pending, #[trigger] tail[i]) by {
            assert(tail[i] == received[i + 1]);
        }
        assert(tail[k - 1] == received[k]);
        lemma_wait_finishes_at_first_own_result::<T, R, E>(pending, tail, k - 1);
        assert(unwrapped(received.take(k)) =~= seq![received[0]->Some_0] + unwrapped(tail.take(k - 1)));
    }
}

/// Over a wait in which no value finishes the request, every result is handed
/// back unchanged, in order, and the request is still waiting.
pub proof fn lemma_wait_requeues_all_foreign_results<T, R, E>(
    pending: PendingReply,
    received: Seq<Option<MessageResult<R, E>>>,
)
    requires
        forall|i: int| 0 <= i < received.len() ==> !finishes(pending, #[trigger] received[i]),
    ensures
        wait_run::<T, R, E>(pending, received).1 is None,
        wait_run::<T, R, E>(pending, received).0 == unwrapped(received),
    decreases received.len(),
{
    if received.len() == 0 {
        assert(unwrapped(received) =~= Seq::<MessageResult<R, E>>::empty());
    } else {
        let tail = received.drop_first();
        assert(!finishes(pending, received[0]));
        assert forall|i: int| 0 <= i < tail.len() implies !finishes(pending, #[trigger] tail[i]) by {
            assert(tail[i] == received[i + 1]);
        }
        lemma_wait_requeues_all_foreign_results::<T, R, E>(pending, tail);
        assert(unwrapped(received) =~= seq![received[0]->Some_0] + unwrapped(tail));
    }
}

impl<T, R, C, E> MessageType<T, R, C, E> {
    /// The error a request ends with when the event channel refused it and
    /// handed back `self`: `MessageChannelClosed` when the channel is closed,
    /// `SendError` otherwise. The refused event is carried back unchanged.
    pub fn into_rejected_message(self, channel_closed: bool) -> (err: ReplyError<T, R, E>)
        requires
            self is Event,
        ensures
            channel_closed ==> err == MessageError::<MessageEvent<T, R, E>, E>::MessageChannelClosed(self->Event_0),
            !channel_closed ==> err == MessageError::<MessageEvent<T, R, E>, E>::SendError(self->Event_0),
    {
        match self {
            MessageType::Event(msg) => if channel_closed {
                MessageError::MessageChannelClosed(msg)
            } else {
                MessageError::SendError(msg)
            },
            MessageType::EventResponse(_) => unreached(),
            MessageType::Close(_) => unreached(),
        }
    }

    /// The error a notification ends with when the event channel refused it
    /// and handed back `self`: `SendError` carrying the refused event.
    pub fn into_rejected_notification(self) -> (err: ReplyError<T, R, E>)
        requires
            self is Event,
        ensures
            err == MessageError::<MessageEvent<T, R, E>, E>::SendError(self->Event_0),
    {
        self.into_rejected_message(false)
    }

    /// The error a close request ends with when the event channel refused it
    /// and handed back `self`: `SendError` carrying the close reason.
    pub fn into_rejected_close(self) -> (err: MessageError<C, E>)
        requires
            self is Close,
        ensures
            err == MessageError::<C, E>::SendError(self->Close_0),
    {
        match self {
            MessageType::Close(reason) => MessageError::SendError(reason),
            MessageType::Event(_) => unreached(),
            MessageType::EventResponse(_) => unreached(),
        }
    }
}

} // verus!

use vstd::pervasive::unreached;
use vstd::prelude::*;

use crate::channel::send_unbounded;
use tokio::sync::mpsc::UnboundedSender;

verus! {

/// The outcome of processing a `MessageEvent`: the origin of the request,
/// its correlation id, and either a response or an error.
#[derive(Debug)]
pub struct MessageResult<R, E>(&'static str, u16, Result<R, E>);

impl<R, E> MessageResult<R, E> {
    /// The origin identifier carried by this result.
    pub closed spec fn spec_origin(&self) -> &'static str {
        self.0
    }

    /// The correlation id carried by this result.
    pub closed spec fn spec_correlation_id(&self) -> u16 {
        self.1
    }

    /// The response or error carried by this result.
    pub closed spec fn spec_result(&self) -> Result<R, E> {
        self.2
    }

    pub fn new_err(err: E, origin: &'static str, correlation_id: u16) -> (r: Self)
        ensures
            r.spec_origin() == origin,
            r.spec_correlation_id() == correlation_id,
            r.spec_result() == Err::<R, E>(err),
    {
        Self(origin, correlation_id, Err(err))
    }

    pub fn new_ok(data: R, id: &'static str, correlation_id: u16) -> (r: Self)
        ensures
            r.spec_origin() == id,
            r.spec_correlation_id() == correlation_id,
            r.spec_result() == Ok::<R, E>(data),
    {
        Self(id, correlation_id, Ok(data))
    }

    pub fn result(self) -> (r: Result<R, E>)
        ensures
            r == self.spec_result(),
    {
        self.2
    }

    pub fn origin(&self) -> (o: &'static str)
        ensures
            o == self.spec_origin(),
    {
        self.0
    }

    pub fn check_correlation(&self, id: u16) -> (b: bool)
        ensures
            b == (self.spec_correlation_id() == id),
    {
        self.1 == id
    }

    pub fn correlation_id(&self) -> (c: u16)
        ensures
            c == self.spec_correlation_id(),
    {
        self.1
    }

    pub fn id_pair(&self) -> (p: (&'static str, u16))
        ensures
            p == (self.spec_origin(), self.spec_correlation_id()),
    {
        (self.0, self.1)
    }
}

/// MessageType is an enum representing different types of messages that can be sent
/// and received within the message handling system. It can contain a message event,
/// a message result, or a notification that a listener has closed.
#[verifier::reject_recursive_types(R)]
#[verifier::reject_recursive_types(E)]
pub enum MessageType<T, R, C, E> {
    /// The MessageEvent is sent from the message handle to the event loop
    Event(MessageEvent<T, R, E>),
    /// The MessageResult is sent from the event loop to the message handle
    EventResponse(MessageResult<R, E>),
    /// Closes The event loop
    Close(C),
}

/// MessageError is an enum representing various error cases that can occur within
/// the message handling system. It can represent errors during sending, receiving,
/// handling misdirected returns, or processing messages.
#[derive(Debug)]
pub enum MessageError<M, E> {
    MessageChannelClosed(M),
    MessageError(E),
    MisdirectedResultSendError { origin: (&'static str, u16), result: (&'static str, u16) },
    RecvError(&'static str, u16),
    ResultNotExpected(&'static str),
    SendError(M),
}

/// A request or notification on its way to the event loop. A request carries
/// the sender on which its reply travels back; a notification carries none.
#[derive(Debug)]
#[verifier::reject_recursive_types(R)]
#[verifier::reject_recursive_types(E)]
pub struct MessageEvent<T, R, E> {
    origin: &'static str,
    pub message: T,
    correlation_id: u16,
    callback: Option<UnboundedSender<MessageResult<R, E>>>,
}

impl<T, R, E> MessageEvent<T, R, E> {
    /// The origin identifier of the event.
    pub closed spec fn spec_origin(&self) -> &'static str {
        self.origin
    }

    /// The message payload of the event.
    pub closed spec fn spec_message(&self) -> T {
        self.message
    }

    /// The correlation id of the event.
    pub closed spec fn spec_correlation_id(&self) -> u16 {
        self.correlation_id
    }

    /// The reply channel of the event, if it expects a reply.
    pub closed spec fn spec_callback(&self) -> Option<UnboundedSender<MessageResult<R, E>>> {
        self.callback
    }

    /// True when `reply` is the reply to this event that carries `result`:
    /// it has the event's origin and correlation id.
    pub open spec fn is_reply(&self, reply: MessageResult<R, E>, result: Result<R, E>) -> bool {
        &&& reply.spec_origin() == self.spec_origin()
        &&& reply.spec_correlation_id() == self.spec_correlation_id()
        &&& reply.spec_result() == result
    }

    pub fn new_message(
        origin: &'static str,
        correlation_id: u16,
        message: T,
        callback: UnboundedSender<MessageResult<R, E>>,
    ) -> (ev: Self)
        ensures
            ev.spec_origin() == origin,
            ev.spec_correlation_id() == correlation_id,
            ev.spec_message() == message,
            ev.spec_callback() == Some(callback),
    {
        Self { origin, message, callback: Some(callback), correlation_id }
    }

    pub fn new_notification(id: &'static str, correlation_id: u16, message: T) -> (ev: Self)
        ensures
            ev.spec_origin() == id,
            ev.spec_correlation_id() == correlation_id,
            ev.spec_message() == message,
            ev.spec_callback() is None,
    {
        Self { origin: id, message, callback: None, correlation_id }
    }

    pub fn message(&mut self) -> (m: &mut T)
        ensures
            *m == old(self).spec_message(),
            final(self).spec_message() == *final(m),
            final(self).spec_origin() == old(self).spec_origin(),
            final(self).spec_correlation_id() == old(self).spec_correlation_id(),
            final(self).spec_callback() == old(self).spec_callback(),
    {
        &mut self.message
    }

    pub fn into_message(self) -> (m: T)
        ensures
            m == self.spec_message(),
    {
        self.message
    }

    pub fn correlation_id(&self) -> (c: &u16)
        ensures
            *c == self.spec_correlation_id(),
    {
        &self.correlation_id
    }

    pub fn origin(&self) -> (o: &'static str)
        ensures
            o == self.spec_origin(),
    {
        self.origin
    }

    /// The reply to this event that carries `result`: tagged with the
    /// event's origin and correlation id.
    pub fn reply(&self, result: Result<R, E>) -> (reply: MessageResult<R, E>)
        ensures
            self.is_reply(reply, result),
    {
        MessageResult(self.origin, self.correlation_id, result)
    }

    /// The outcome of a reply, given the outcome `sent` of handing it to the
    /// reply channel: `Ok` when the channel took it, `SendError` carrying the
    /// reply when the channel refused it and handed it back.
    pub fn send_outcome(sent: Result<(), MessageResult<R, E>>) -> (r: Result<(), MessageError<MessageResult<R, E>, E>>)
        ensures
            sent is Ok ==> r is Ok,
            sent matches Err(refused) ==> r == Err::<(), MessageError<MessageResult<R, E>, E>>(
                MessageError::SendError(refused),
            ),
    {
        match sent {
            Ok(()) => Ok(()),
            Err(refused) => Err(MessageError::SendError(refused)),
        }
    }

    /// Hands `self.reply(result)` to `callback`; see `send_outcome`.
    fn send_reply(&self, callback: &UnboundedSender<MessageResult<R, E>>, result: Result<R, E>) -> (r: Result<(), MessageError<MessageResult<R, E>, E>>)
        ensures
            r is Ok || (r matches Err(MessageError::SendError(reply)) && self.is_reply(reply, result)),
    {
        let reply = self.reply(result);
        Self::send_outcome(send_unbounded(callback, reply))
    }

    /// Replies with `data`. The event must expect a reply.
    pub fn callback_ok(self, data: R) -> (r: Result<(), MessageError<MessageResult<R, E>, E>>)
        requires
            self.spec_callback() is Some,
        ensures
            r is Ok || (r matches Err(MessageError::SendError(reply)) && self.is_reply(reply, Ok(data))),
    {
        match &self.callback {
            Some(cb) => self.send_reply(cb, Ok(data)),
            None => unreached(),
        }
    }

    /// Replies with `data`, or fails with `ResultNotExpected` when the event
    /// is a notification.
    pub fn try_callback_ok(self, data: R) -> (r: Result<(), MessageError<MessageResult<R, E>, E>>)
        ensures
            self.spec_callback() is None ==> r == Err::<(), MessageError<MessageResult<R, E>, E>>(
                MessageError::ResultNotExpected(self.spec_origin()),
            ),
            self.spec_callback() is Some ==> (r is Ok || (r matches Err(MessageError::SendError(reply)) && self.is_reply(reply, Ok(data)))),
    {
        match &self.callback {
            Some(cb) => self.send_reply(cb, Ok(data)),
            None => Err(MessageError::ResultNotExpected(self.origin)),
        }
    }

    /// Replies with the error `err`. The event must expect a reply.
    pub fn callback_err(self, err: E) -> (r: Result<(), MessageError<MessageResult<R, E>, E>>)
        requires
            self.spec_callback() is Some,
        ensures
            r is Ok || (r matches Err(MessageError::SendError(reply)) && self.is_reply(reply, Err(err))),
    {
        match &self.callback {
            Some(cb) => self.send_reply(cb, Err(err)),
            None => unreached(),
        }
    }

    /// Replies with the error `data`, or fails with `ResultNotExpected` when
    /// the event is a notification.
    pub fn try_callback_err(self, data: E) -> (r: Result<(), MessageError<MessageResult<R, E>, E>>)
        ensures
            self.spec_callback() is None ==> r == Err::<(), MessageError<MessageResult<R, E>, E>>(
                MessageError::ResultNotExpected(self.spec_origin()),
            ),
            self.spec_callback() is Some ==> (r is Ok || (r matches Err(MessageError::SendError(reply)) && self.is_reply(reply, Err(data)))),
    {
        match &self.callback {
            Some(cb) => self.send_reply(cb, Err(data)),
            None => Err(MessageError::ResultNotExpected(self.origin)),
        }
    }
}

} // verus!

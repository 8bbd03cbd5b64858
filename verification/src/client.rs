//! The decisions of a client's worker, which moves messages between a connection and its users.
//!
//! The worker waits for requests to send and for messages from the server. [`handle_request`] and
//! [`handle_incoming`] say what to do about each, and [`next_after`] whether to go on once that
//! was done.

use vstd::prelude::*;

use crate::decode::{DecodeError, Decoder};
use crate::ids;
use crate::io;
use crate::state;
use crate::text;
use crate::value;
use crate::notification::Notification;
use crate::{
    CompletedRequest, Event, Handled, MaybeBatch, PendingRequest, ProcessError, RawNotification,
    RawNotificationOrResponse, RawRequest, RawResponse, ResponseError, ResponseResult, State,
};

verus! {

/// What a worker is to do.
#[derive(Debug)]
pub enum Action<C> {
    /// Write these bytes to the connection.
    Write(Vec<u8>),
    /// Emit this event.
    Emit(Event),
    /// Call this callback with the response to the request with this ID.
    Deliver(u32, C, ResponseResult<CompletedRequest>),
    /// Stop without an error.
    Stop,
    /// Stop with this error.
    Fail(WorkerError),
}

/// Why a worker stops.
#[derive(Debug)]
pub enum WorkerError {
    /// Reading from the connection failed.
    Read(std::io::Error),
    /// A message from the server could not be processed.
    Process(ProcessError),
    /// More requests wait for a response than there are IDs for.
    NoFreeId,
}

/// What came of doing what a worker was to do.
#[derive(Debug)]
pub enum Performed {
    /// The bytes were written, or writing failed.
    Written(Result<(), std::io::Error>),
    /// The event was emitted, if somebody still listens.
    Emitted { listening: bool },
    /// The callback of the request with this ID was called, and could read the response or not.
    Delivered { id: u32, read: Result<(), DecodeError> },
}

/// Whether a worker goes on.
#[derive(Debug)]
pub enum Next {
    /// It goes on.
    Continue,
    /// It stops with this result.
    Finish(Result<(), std::io::Error>),
    /// It stops, since a message from the server could not be processed.
    Fail(ProcessError),
}

/// The JSON texts that ask for requests, each under its ID.
pub open spec fn asking_texts<C>(ids: Seq<u32>, reqs: Seq<PendingRequest<C>>) -> Seq<Seq<char>> {
    Seq::new(reqs.len(), |i: int| io::request_text(state::asked(ids[i], reqs[i])))
}

/// The JSON text that asks for a request, or for a batch of them, under these IDs.
pub open spec fn asking_text<C>(ids: Seq<u32>, req: MaybeBatch<PendingRequest<C>>) -> Seq<char> {
    match req {
        MaybeBatch::Single(req) => io::request_text(state::asked(ids[0], req)),
        MaybeBatch::Batch(reqs) => "["@ + text::joined(asking_texts(ids, reqs@), ","@) + "]"@,
    }
}

/// Tracks requests that a user sends, and says to write the message that asks for them. Where no
/// user is left, says to stop, and where there are not enough IDs for the requests, to fail.
pub fn handle_request<C>(
    state: &mut State<C>,
    next_id: &mut u32,
    req: Option<MaybeBatch<PendingRequest<C>>>,
) -> (action: Action<C>)
    ensures
        match req {
            Some(req) => if state::room_for(old(state)@, req.items().len()) {
                &&& final(state)@ == state::with_requests(
                    old(state)@,
                    *old(next_id),
                    req.items(),
                )
                &&& *final(next_id) == ids::next_id_after(
                    old(state)@.dom(),
                    *old(next_id),
                    req.items().len(),
                )
                &&& action matches Action::Write(line) && line@ == vstd::utf8::encode_utf8(
                    asking_text(
                        state::given_ids(old(state)@, *old(next_id), req.items()),
                        req,
                    ),
                ).push(10)
            } else {
                &&& final(state)@ == old(state)@
                &&& *final(next_id) == *old(next_id)
                &&& action == Action::<C>::Fail(WorkerError::NoFreeId)
            },
            None => {
                &&& final(state)@ == old(state)@
                &&& *final(next_id) == *old(next_id)
                &&& action is Stop
            },
        },
        // Every request that newly waits has its message in the line.
        req matches Some(req) ==> (old(state)@.dom().len() + req.items().len() <= 0x1_0000_0000
            ==> {
            &&& action matches Action::Write(line)
            &&& exists|message: MaybeBatch<RawRequest>|
                {
                    &&& message is Single <==> req is Single
                    &&& message.items().len() == req.items().len()
                    &&& line@ == vstd::utf8::encode_utf8(#[trigger] io::message_text(message)).push(
                        10,
                    )
                    &&& forall|i: int|
                        #![trigger message.items()[i]]
                        0 <= i < req.items().len() ==> {
                            &&& message.items()[i].id == state::given_ids(
                                old(state)@,
                                *old(next_id),
                                req.items(),
                            )[i]
                            &&& !old(state)@.contains_key(message.items()[i].id)
                            &&& final(state)@.contains_key(message.items()[i].id)
                            &&& final(state)@[message.items()[i].id] == req.items()[i]
                            &&& message.items()[i].jsonrpc@ == "2.0"@
                            &&& message.items()[i].method@ == req.items()[i].method_text()
                            &&& message.items()[i].params@.len()
                                == req.items()[i].param_texts().len()
                            &&& forall|j: int|
                                0 <= j < message.items()[i].params@.len() ==> (
                                #[trigger] message.items()[i].params@[j])@
                                    == req.items()[i].param_texts()[j]
                        }
                    &&& forall|id: u32| #[trigger]
                        final(state)@.contains_key(id) ==> old(state)@.contains_key(id)
                            || exists|i: int|
                            0 <= i < message.items().len() && (#[trigger] message.items()[i]).id
                                == id
                }
            &&& forall|id: u32| #[trigger]
                old(state)@.contains_key(id) ==> {
                    &&& final(state)@.contains_key(id)
                    &&& final(state)@[id] == old(state)@[id]
                }
        }),
        req matches Some(req) ==> (old(state)@.dom().len() + req.items().len() > 0x1_0000_0000
            ==> action == Action::<C>::Fail(WorkerError::NoFreeId) && final(state)@ == old(state)@
            && *final(next_id) == *old(next_id)),
{
    match req {
        Some(req) => {
            let n: usize = match &req {
                MaybeBatch::Single(_) => 1,
                MaybeBatch::Batch(reqs) => reqs.len(),
            };
            if !state.has_room(n) {
                return Action::Fail(WorkerError::NoFreeId);
            }
            let requests = state.track_request(next_id, req);
            proof {
                let ids = state::given_ids(old(state)@, *old(next_id), req.items());
                assert forall|i: int| 0 <= i < req.items().len() implies (
                #[trigger] requests.items()[i])@ == state::asked(ids[i], req.items()[i]) by {}
                if req is Single {
                    assert(requests.items()[0]@ == state::asked(ids[0], req.items()[0]));
                } else {
                    assert(io::request_texts(requests.items()) =~= asking_texts(ids, req.items()));
                }
            }
            let line = io::encode_message(&requests);
            assert(line@ == vstd::utf8::encode_utf8(io::message_text(requests)).push(10));
            Action::Write(line)
        },
        None => Action::Stop,
    }
}

/// What is to be done about a message from the server that was processed with this outcome.
pub open spec fn action_for<C>(
    message: RawNotificationOrResponse,
    outcome: Result<Handled<C>, ProcessError>,
) -> Action<C> {
    match (message, outcome) {
        (_, Ok(Handled::Event(event))) => Action::Emit(event),
        (
            RawNotificationOrResponse::Response(resp),
            Ok(Handled::Delivered(callback, reply)),
        ) => Action::Deliver(resp.id, callback, reply),
        (RawNotificationOrResponse::Notification(_), Ok(Handled::Delivered(..))) => Action::Stop,
        (_, Err(error)) => Action::Fail(WorkerError::Process(error)),
    }
}

/// Whether `action` is what is to be done about a message from the server, as far as a decoder
/// reads it.
pub open spec fn incoming_action<C, D: Decoder>(
    pending: Map<u32, PendingRequest<C>>,
    message: RawNotificationOrResponse,
    decoder: &D,
    action: Action<C>,
) -> bool {
    exists|outcome: Result<Handled<C>, ProcessError>| #[trigger]
        state::processes(pending, message, decoder, outcome) && action == action_for(
            message,
            outcome,
        )
}

/// Processes a message from the server, and says to emit an event or to call a callback. Where the
/// message cannot be processed or could not be read, says to fail, and where there are no more
/// messages, to stop.
pub fn handle_incoming<C, D: Decoder>(
    state: &mut State<C>,
    incoming: Option<Result<RawNotificationOrResponse, std::io::Error>>,
    decoder: &D,
) -> (action: Action<C>)
    ensures
        match incoming {
            Some(Ok(message)) => {
                &&& final(state)@ == state::remaining(old(state)@, message)
                &&& incoming_action(old(state)@, message, decoder, action)
                &&& match action {
                    Action::Emit(event) => {
                        state::processes(old(state)@, message, decoder, Ok(Handled::Event(event)))
                    },
                    Action::Deliver(id, callback, reply) => {
                        &&& message matches RawNotificationOrResponse::Response(resp)
                        &&& id == resp.id
                        &&& state::processes(
                            old(state)@,
                            message,
                            decoder,
                            Ok(Handled::Delivered(callback, reply)),
                        )
                    },
                    Action::Fail(WorkerError::Process(error)) => {
                        state::processes(old(state)@, message, decoder, Err(error))
                    },
                    _ => false,
                }
                &&& message is Notification ==> final(state)@ == old(state)@
                &&& message matches RawNotificationOrResponse::Response(resp) ==> {
                    &&& !final(state)@.contains_key(resp.id)
                    &&& forall|id: u32|
                        id != resp.id ==> (#[trigger] final(state)@.contains_key(id) <==> old(
                            state,
                        )@.contains_key(id))
                    &&& forall|id: u32|
                        id != resp.id ==> #[trigger] final(state)@[id] == old(state)@[id]
                }
            },
            Some(Err(error)) => {
                &&& final(state)@ == old(state)@
                &&& action == Action::<C>::Fail(WorkerError::Read(error))
            },
            None => {
                &&& final(state)@ == old(state)@
                &&& action is Stop
            },
        },
{
    match incoming {
        Some(Ok(message)) => {
            let answered: Option<u32> = match &message {
                RawNotificationOrResponse::Notification(_) => None,
                RawNotificationOrResponse::Response(resp) => Some(resp.id),
            };
            let outcome = state.process_incoming(message, decoder);
            assert(state::processes(old(state)@, message, decoder, outcome));
            match (answered, outcome) {
                (_, Ok(Handled::Event(event))) => Action::Emit(event),
                (Some(id), Ok(Handled::Delivered(callback, reply))) => {
                    Action::Deliver(id, callback, reply)
                },
                // A notification calls no callback.
                (None, Ok(Handled::Delivered(_, _))) => Action::Stop,
                (_, Err(error)) => Action::Fail(WorkerError::Process(error)),
            }
        },
        Some(Err(error)) => Action::Fail(WorkerError::Read(error)),
        None => Action::Stop,
    }
}

/// Whether a worker goes on: it stops with the error where writing failed or where a callback could
/// not read its response, and without one where nobody listens to its events any more.
pub fn next_after(performed: Performed) -> (next: Next)
    ensures
        next == (match performed {
            Performed::Written(Ok(_)) => Next::Continue,
            Performed::Written(Err(error)) => Next::Finish(Err(error)),
            Performed::Emitted { listening: true } => Next::Continue,
            Performed::Emitted { listening: false } => Next::Finish(Ok(())),
            Performed::Delivered { read: Ok(_), .. } => Next::Continue,
            Performed::Delivered { id, read: Err(error) } => Next::Fail(
                ProcessError::CannotDeserializeResponse(id, error),
            ),
        }),
{
    match performed {
        Performed::Written(Ok(())) => Next::Continue,
        Performed::Written(Err(error)) => Next::Finish(Err(error)),
        Performed::Emitted { listening } => {
            if listening {
                Next::Continue
            } else {
                Next::Finish(Ok(()))
            }
        },
        Performed::Delivered { read: Ok(()), .. } => Next::Continue,
        Performed::Delivered { id, read: Err(error) } => {
            Next::Fail(ProcessError::CannotDeserializeResponse(id, error))
        },
    }
}

/// The text that asks for requests under their IDs is that of the message that holds, for each of
/// them and in order, its ID, its method and every parameter of it, and that is of the same shape.
pub proof fn lemma_asking_text<C>(
    ids: Seq<u32>,
    req: MaybeBatch<PendingRequest<C>>,
    message: MaybeBatch<RawRequest>,
)
    requires
        message is Single <==> req is Single,
        message.items().len() == req.items().len(),
        forall|i: int|
            #![trigger message.items()[i]]
            0 <= i < req.items().len() ==> {
                &&& message.items()[i].jsonrpc@ == "2.0"@
                &&& message.items()[i].id == ids[i]
                &&& message.items()[i].method@ == req.items()[i].method_text()
                &&& value::texts(message.items()[i].params@) == req.items()[i].param_texts()
            },
    ensures
        asking_text(ids, req) == io::message_text(message),
{
    assert forall|i: int| 0 <= i < req.items().len() implies (#[trigger] message.items()[i])@
        == state::asked(ids[i], req.items()[i]) by {}
    if req is Single {
        assert(message.items()[0]@ == state::asked(ids[0], req.items()[0]));
    } else {
        assert(io::request_texts(message.items()) =~= asking_texts(ids, req.items()));
    }
}

/// What is done about a message is what came of processing it: an event is emitted, a callback is
/// called with its reply under the ID that was answered, and an error ends the worker.
pub proof fn lemma_action_is_outcome<C, D: Decoder>(
    pending: Map<u32, PendingRequest<C>>,
    message: RawNotificationOrResponse,
    decoder: &D,
    action: Action<C>,
)
    requires
        incoming_action(pending, message, decoder, action),
    ensures
        match action {
            Action::Emit(event) => {
                state::processes(pending, message, decoder, Ok(Handled::Event(event)))
            },
            Action::Deliver(id, callback, reply) => {
                &&& message matches RawNotificationOrResponse::Response(resp)
                &&& id == resp.id
                &&& state::processes(
                    pending,
                    message,
                    decoder,
                    Ok(Handled::Delivered(callback, reply)),
                )
            },
            Action::Fail(WorkerError::Process(error)) => {
                state::processes(pending, message, decoder, Err(error))
            },
            _ => false,
        },
{
}

/// The response to a request that was sent with a callback reaches that callback, unless it is a
/// result that cannot be read.
pub proof fn lemma_reply_reaches_callback<C, D: Decoder>(
    pending: Map<u32, PendingRequest<C>>,
    first: u32,
    reqs: Seq<PendingRequest<C>>,
    k: int,
    resp: RawResponse,
    decoder: &D,
    action: Action<C>,
)
    requires
        0 <= k < reqs.len(),
        state::room_for(pending, reqs.len()),
        reqs[k].callback() is Some,
        resp.id == state::given_ids(pending, first, reqs)[k],
        incoming_action(
            state::with_requests(pending, first, reqs),
            RawNotificationOrResponse::Response(resp),
            decoder,
            action,
        ),
    ensures
        match action {
            Action::Deliver(id, callback, reply) => {
                &&& id == resp.id
                &&& reqs[k].callback() == Some(callback)
                &&& reply is Ok <==> resp.result is Ok
            },
            Action::Fail(WorkerError::Process(ProcessError::CannotDeserializeResponse(id, _))) => {
                &&& id == resp.id
                &&& resp.result is Ok
            },
            _ => false,
        },
{
    state::lemma_request_waits(pending, first, reqs, k);
}

/// The response to a request that was sent without a callback is emitted as an event about that
/// request, unless it is a result that cannot be read.
pub proof fn lemma_reply_is_emitted<C, D: Decoder>(
    pending: Map<u32, PendingRequest<C>>,
    first: u32,
    reqs: Seq<PendingRequest<C>>,
    k: int,
    resp: RawResponse,
    decoder: &D,
    action: Action<C>,
)
    requires
        0 <= k < reqs.len(),
        state::room_for(pending, reqs.len()),
        reqs[k].callback() is None,
        resp.id == state::given_ids(pending, first, reqs)[k],
        incoming_action(
            state::with_requests(pending, first, reqs),
            RawNotificationOrResponse::Response(resp),
            decoder,
            action,
        ),
    ensures
        match action {
            Action::Emit(Event::Response(completed)) => {
                &&& completed.any() == reqs[k].request()
                &&& resp.result is Ok
            },
            Action::Emit(Event::ResponseError(failed)) => {
                &&& failed.any() == reqs[k].request()
                &&& resp.result matches Err(raw) && failed.error() == ResponseError::of(raw)
            },
            Action::Fail(WorkerError::Process(ProcessError::CannotDeserializeResponse(id, _))) => {
                &&& id == resp.id
                &&& resp.result is Ok
            },
            _ => false,
        },
{
    state::lemma_request_waits(pending, first, reqs, k);
}

/// A notification is emitted as an event, whatever requests wait, unless its parameters cannot be
/// read.
pub proof fn lemma_notification_is_emitted<C, D: Decoder>(
    pending: Map<u32, PendingRequest<C>>,
    raw: RawNotification,
    decoder: &D,
    action: Action<C>,
)
    requires
        incoming_action(
            pending,
            RawNotificationOrResponse::Notification(raw),
            decoder,
            action,
        ),
    ensures
        match action {
            Action::Emit(Event::Notification(n)) => Notification::parses(raw, decoder, Ok(n)),
            Action::Fail(
                WorkerError::Process(
                    ProcessError::CannotDeserializeNotification { method, params, error },
                ),
            ) => {
                &&& method == raw.method
                &&& params == raw.params
                &&& Notification::parses(raw, decoder, Err(error))
            },
            _ => false,
        },
{
}

} // verus!

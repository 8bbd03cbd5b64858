//! The state of an Electrum client: which requests wait for a response.

use std::collections::HashMap;
use vstd::prelude::*;

use crate::chain::BlockHeader;
use crate::decode::{DecodeError, Decoder};
use crate::ids;
use crate::notification::Notification;
use crate::raw;
use crate::raw::{cow_as_str, RawRequestView};
use crate::pending_request::{lemma_response_is_what_was_read, lemma_result_is_handled};
use crate::request;
use crate::request_ext::{AnyRequest, CompletedRequest, FailedRequest, RequestExt};
use crate::text;
use crate::value;
use crate::{
    CowStr, Handled, MaybeBatch, PendingRequest, RawNotification, RawNotificationOrResponse,
    RawRequest, RawResponse, ResponseError, Value,
};

verus! {

broadcast use vstd::std_specs::hash::group_hash_axioms;

/// Represents a high-level event produced after processing a server notification or response.
#[derive(Debug, Clone)]
pub enum Event {
    /// A successfully satisfied response to a previously tracked request.
    ///
    /// Contains the request that was sent and the parsed result.
    Response(CompletedRequest),
    /// A failed response to a previously tracked request.
    ///
    /// Contains the request that was sent and the error returned by the server.
    ResponseError(FailedRequest),
    /// A server-initiated notification that was not in response to any tracked request.
    ///
    /// Typically includes information such as new block headers or script status changes.
    Notification(Notification),
}

/// Headers with their heights, the first of them at height `start`.
pub open spec fn numbered(start: u32, headers: Seq<BlockHeader>) -> Seq<(u32, BlockHeader)> {
    Seq::new(headers.len(), |i: int| ((start + i) as u32, headers[i]))
}

fn number_headers(start: u32, headers: &Vec<BlockHeader>) -> (pairs: Vec<(u32, BlockHeader)>)
    requires
        start + headers@.len() <= 0x1_0000_0000,
    ensures
        pairs@ == numbered(start, headers@),
        pairs@.len() == headers@.len(),
        forall|i: int|
            0 <= i < headers@.len() ==> (#[trigger] pairs@[i]).0 == start + i && pairs@[i].1
                == headers@[i],
{
    let mut pairs: Vec<(u32, BlockHeader)> = Vec::new();
    let mut i: usize = 0;
    while i < headers.len()
        invariant
            i <= headers@.len(),
            start + headers@.len() <= 0x1_0000_0000,
            pairs@ == numbered(start, headers@.take(i as int)),
        decreases headers@.len() - i,
    {
        pairs.push((start + i as u32, headers[i]));
        i = i + 1;
        assert(pairs@ =~= numbered(start, headers@.take(i as int)));
    }
    assert(headers@.take(i as int) == headers@);
    pairs
}

impl Event {
    /// The block headers in this event with their heights, if it includes header information.
    pub open spec fn headers(self) -> Option<Seq<(u32, BlockHeader)>> {
        match self {
            Event::Response(CompletedRequest::Header { req, resp }) => Some(
                seq![(req.height, resp.header)],
            ),
            Event::Response(CompletedRequest::HeaderWithProof { req, resp }) => Some(
                seq![(req.height, resp.header)],
            ),
            Event::Response(CompletedRequest::Headers { req, resp }) => Some(
                numbered(req.start_height, resp.headers@),
            ),
            Event::Response(CompletedRequest::HeadersWithCheckpoint { req, resp }) => Some(
                numbered(req.start_height, resp.headers@),
            ),
            Event::Response(CompletedRequest::HeadersSubscribe { resp, .. }) => Some(
                seq![(resp.height, resp.header)],
            ),
            Event::Notification(Notification::Header(n)) => Some(
                seq![(n.tip().height, n.tip().header)],
            ),
            _ => None,
        }
    }

    /// Whether every height in this event fits into 32 bits.
    pub open spec fn heights_fit(self) -> bool {
        match self {
            Event::Response(CompletedRequest::Headers { req, resp }) => {
                req.start_height + resp.headers@.len() <= 0x1_0000_0000
            },
            Event::Response(CompletedRequest::HeadersWithCheckpoint { req, resp }) => {
                req.start_height + resp.headers@.len() <= 0x1_0000_0000
            },
            _ => true,
        }
    }

    /// Attempts to extract block headers from the event, if applicable.
    ///
    /// Returns a vector of `(height, header)` pairs for events that contain header data, whether
    /// from a response to a request (e.g., `blockchain.headers.subscribe`) or from a server
    /// notification.
    ///
    /// Returns `None` if the event does not include any header information.
    pub fn try_to_headers(&self) -> (headers: Option<Vec<(u32, BlockHeader)>>)
        requires
            self.heights_fit(),
        ensures
            headers is Some <==> self.headers() is Some,
            headers matches Some(pairs) ==> pairs@ == self.headers()->0,
            *self matches Event::Response(CompletedRequest::Header { req, resp }) ==> {
                &&& headers matches Some(pairs)
                &&& pairs@.len() == 1
                &&& pairs@[0].0 == req.height
                &&& pairs@[0].1 == resp.header
            },
            *self matches Event::Response(CompletedRequest::HeaderWithProof { req, resp }) ==> {
                &&& headers matches Some(pairs)
                &&& pairs@.len() == 1
                &&& pairs@[0].0 == req.height
                &&& pairs@[0].1 == resp.header
            },
            *self matches Event::Response(CompletedRequest::Headers { req, resp }) ==> {
                &&& headers matches Some(pairs)
                &&& pairs@.len() == resp.headers@.len()
                &&& forall|i: int|
                    0 <= i < resp.headers@.len() ==> (#[trigger] pairs@[i]).0 == req.start_height
                        + i && pairs@[i].1 == resp.headers@[i]
            },
            *self matches Event::Response(
                CompletedRequest::HeadersWithCheckpoint { req, resp },
            ) ==> {
                &&& headers matches Some(pairs)
                &&& pairs@.len() == resp.headers@.len()
                &&& forall|i: int|
                    0 <= i < resp.headers@.len() ==> (#[trigger] pairs@[i]).0 == req.start_height
                        + i && pairs@[i].1 == resp.headers@[i]
            },
            *self matches Event::Response(CompletedRequest::HeadersSubscribe { resp, .. }) ==> {
                &&& headers matches Some(pairs)
                &&& pairs@.len() == 1
                &&& pairs@[0].0 == resp.height
                &&& pairs@[0].1 == resp.header
            },
            *self matches Event::Notification(Notification::Header(n)) ==> {
                &&& headers matches Some(pairs)
                &&& pairs@.len() == 1
                &&& pairs@[0].0 == n.tip().height
                &&& pairs@[0].1 == n.tip().header
            },
            headers is Some <==> match *self {
                Event::Response(completed) => {
                    ||| completed is Header
                    ||| completed is HeaderWithProof
                    ||| completed is Headers
                    ||| completed is HeadersWithCheckpoint
                    ||| completed is HeadersSubscribe
                },
                Event::ResponseError(_) => false,
                Event::Notification(notification) => notification is Header,
            },
    {
        match self {
            Event::Response(CompletedRequest::Header { req, resp }) => {
                Some(vec![(req.height, resp.header)])
            },
            Event::Response(CompletedRequest::HeaderWithProof { req, resp }) => {
                Some(vec![(req.height, resp.header)])
            },
            Event::Response(CompletedRequest::Headers { req, resp }) => {
                Some(number_headers(req.start_height, &resp.headers))
            },
            Event::Response(CompletedRequest::HeadersWithCheckpoint { req, resp }) => {
                Some(number_headers(req.start_height, &resp.headers))
            },
            Event::Response(CompletedRequest::HeadersSubscribe { resp, .. }) => {
                Some(vec![(resp.height, resp.header)])
            },
            Event::Notification(Notification::Header(n)) => Some(vec![(n.height(), *n.header())]),
            _ => None,
        }
    }
}

/// An error that occurred while processing an incoming server response or notification.
#[derive(Debug)]
pub enum ProcessError {
    /// A response was received for an unknown or untracked request ID.
    MissingRequest(u32),
    /// The server returned a successful response, but it could not be deserialized into the
    /// expected type.
    ///
    /// The `u32` is the request ID, and the [`DecodeError`] is the underlying deserialization
    /// failure.
    CannotDeserializeResponse(u32, DecodeError),
    /// A server notification could not be deserialized into the expected notification type.
    ///
    /// The `method` and `params` are the raw JSON-RPC fields from the server, and `error` is the
    /// deserialization failure.
    CannotDeserializeNotification { method: CowStr, params: Value, error: DecodeError },
}

impl ProcessError {
    /// The message that describes the error.
    pub open spec fn text(self) -> Seq<char> {
        match self {
            ProcessError::MissingRequest(id) => {
                "no pending request found for response with id "@ + text::decimal(id as nat)
            },
            ProcessError::CannotDeserializeResponse(id, error) => {
                "failed to deserialize response for request id "@ + text::decimal(id as nat) + ": "@
                    + error.message@
            },
            ProcessError::CannotDeserializeNotification { method, error, .. } => {
                "failed to deserialize notification for method '"@ + method@ + "': "@
                    + error.message@
            },
        }
    }

    /// Writes the message that describes the error.
    pub fn message(&self) -> (message: String)
        ensures
            message@ == self.text(),
            *self matches ProcessError::MissingRequest(id) ==> message@
                == "no pending request found for response with id "@ + text::decimal(id as nat),
            *self matches ProcessError::CannotDeserializeResponse(id, error) ==> message@
                == "failed to deserialize response for request id "@ + text::decimal(id as nat)
                + ": "@ + error.message@,
            *self matches ProcessError::CannotDeserializeNotification { method, error, .. }
                ==> message@ == "failed to deserialize notification for method '"@ + method@
                + "': "@ + error.message@,
    {
        let mut message = String::new();
        match self {
            ProcessError::MissingRequest(id) => {
                message.append("no pending request found for response with id ");
                text::push_decimal(&mut message, *id as u64);
            },
            ProcessError::CannotDeserializeResponse(id, error) => {
                message.append("failed to deserialize response for request id ");
                text::push_decimal(&mut message, *id as u64);
                message.append(": ");
                message.append(error.message.as_str());
            },
            ProcessError::CannotDeserializeNotification { method, error, .. } => {
                message.append("failed to deserialize notification for method '");
                message.append(cow_as_str(method));
                message.append("': ");
                message.append(error.message.as_str());
            },
        }
        assert(message@ =~= self.text());
        message
    }
}

/// Whether there are enough IDs for this many more requests.
pub open spec fn room_for<C>(pending: Map<u32, PendingRequest<C>>, n: nat) -> bool {
    pending.dom().len() + n <= 0x1_0000_0000
}

/// The IDs that requests get when they are tracked, from the ID `first` on.
pub open spec fn given_ids<C>(
    pending: Map<u32, PendingRequest<C>>,
    first: u32,
    reqs: Seq<PendingRequest<C>>,
) -> Seq<u32> {
    ids::free_ids(pending.dom(), first, reqs.len())
}

/// The pending requests with some more, each under its ID.
pub open spec fn with_ids<C>(
    pending: Map<u32, PendingRequest<C>>,
    ids: Seq<u32>,
    reqs: Seq<PendingRequest<C>>,
) -> Map<u32, PendingRequest<C>>
    decreases reqs.len(),
{
    if reqs.len() == 0 {
        pending
    } else {
        with_ids(pending, ids.drop_last(), reqs.drop_last()).insert(ids.last(), reqs.last())
    }
}

/// The pending requests after tracking some more, with IDs from `first` on.
pub open spec fn with_requests<C>(
    pending: Map<u32, PendingRequest<C>>,
    first: u32,
    reqs: Seq<PendingRequest<C>>,
) -> Map<u32, PendingRequest<C>> {
    with_ids(pending, given_ids(pending, first, reqs), reqs)
}

proof fn lemma_with_ids<C>(
    pending: Map<u32, PendingRequest<C>>,
    ids: Seq<u32>,
    reqs: Seq<PendingRequest<C>>,
)
    requires
        ids.len() == reqs.len(),
        ids.no_duplicates(),
    ensures
        with_ids(pending, ids, reqs).dom() == pending.dom().union(ids.to_set()),
        forall|k: int|
            0 <= k < ids.len() ==> with_ids(pending, ids, reqs)[#[trigger] ids[k]] == reqs[k],
        forall|id: u32|
            !ids.contains(id) ==> #[trigger] with_ids(pending, ids, reqs)[id] == pending[id],
    decreases reqs.len(),
{
    let after = with_ids(pending, ids, reqs);
    if reqs.len() == 0 {
        assert(pending.dom().union(ids.to_set()) =~= pending.dom());
    } else {
        let front = ids.drop_last();
        lemma_with_ids(pending, front, reqs.drop_last());
        assert forall|id: u32| #[trigger] ids.contains(id) == (front.contains(id) || id
            == ids.last()) by {
            if ids.contains(id) {
                let i = choose|i: int| 0 <= i < ids.len() && ids[i] == id;
                if i < front.len() {
                    assert(front[i] == id);
                }
            }
            if front.contains(id) {
                let i = choose|i: int| 0 <= i < front.len() && front[i] == id;
                assert(ids[i] == id);
            }
            assert(ids[ids.len() - 1] == ids.last());
        }
        assert(after.dom() =~= pending.dom().union(ids.to_set()));
        assert forall|k: int| 0 <= k < ids.len() implies after[#[trigger] ids[k]] == reqs[k] by {
            if k < front.len() {
                assert(front[k] == ids[k]);
                assert(reqs.drop_last()[k] == reqs[k]);
            }
        }
        assert forall|id: u32| !ids.contains(id) implies #[trigger] after[id] == pending[id] by {
            assert(!front.contains(id));
        }
    }
}

/// The message that asks for a pending request under an ID.
pub open spec fn asked<C>(id: u32, req: PendingRequest<C>) -> RawRequestView {
    raw::raw_view(id, req.method_text(), req.param_texts())
}

/// The pending requests after a message from the server.
pub open spec fn remaining<C>(
    pending: Map<u32, PendingRequest<C>>,
    message: RawNotificationOrResponse,
) -> Map<u32, PendingRequest<C>> {
    match message {
        RawNotificationOrResponse::Notification(_) => pending,
        RawNotificationOrResponse::Response(resp) => pending.remove(resp.id),
    }
}

/// Whether `outcome` is what comes of a message from the server, as far as a decoder reads it.
pub open spec fn processes<C, D: Decoder>(
    pending: Map<u32, PendingRequest<C>>,
    message: RawNotificationOrResponse,
    decoder: &D,
    outcome: Result<Handled<C>, ProcessError>,
) -> bool {
    match message {
        RawNotificationOrResponse::Notification(raw) => {
            exists|parsed: Result<Notification, DecodeError>| #[trigger]
                Notification::parses(raw, decoder, parsed) && outcome == (match parsed {
                    Ok(notification) => Ok(Handled::<C>::Event(Event::Notification(notification))),
                    Err(error) => Err(
                        ProcessError::CannotDeserializeNotification {
                            method: raw.method,
                            params: raw.params,
                            error,
                        },
                    ),
                })
        },
        RawNotificationOrResponse::Response(resp) => {
            if pending.contains_key(resp.id) {
                exists|handled: Result<Handled<C>, DecodeError>| #[trigger]
                    pending[resp.id].handles(resp.result, decoder, handled) && outcome == (
                    match handled {
                        Ok(handled) => Ok(handled),
                        Err(error) => Err(ProcessError::CannotDeserializeResponse(resp.id, error)),
                    })
            } else {
                outcome == Err::<Handled<C>, ProcessError>(ProcessError::MissingRequest(resp.id))
            }
        },
    }
}

/// A sans-io structure that manages the state of an Electrum client.
///
/// The [`State`] tracks outgoing requests and handles incoming messages from the Electrum server.
///
/// Use [`State::track_request`] to register a new request. This method stores the request
/// internally and returns a [`RawRequest`] that can be sent to the server.
///
/// Use [`State::process_incoming`] to handle messages received from the server. It updates internal
/// state as needed and returns what comes of a notification or of a response to a previously
/// tracked request.
#[derive(Debug)]
pub struct State<C> {
    pending: HashMap<u32, PendingRequest<C>>,
}

impl<C> View for State<C> {
    type V = Map<u32, PendingRequest<C>>;

    closed spec fn view(&self) -> Map<u32, PendingRequest<C>> {
        self.pending@
    }
}

impl<C> Default for State<C> {
    fn default() -> (state: Self)
        ensures
            state@ == Map::<u32, PendingRequest<C>>::empty(),
    {
        State::new()
    }
}

impl<C> State<C> {
    /// Creates a new [`State`] instance.
    pub fn new() -> (state: Self)
        ensures
            state@ == Map::<u32, PendingRequest<C>>::empty(),
    {
        State { pending: HashMap::new() }
    }

    /// Clears all pending requests.
    pub fn clear(&mut self)
        ensures
            final(self)@ == Map::<u32, PendingRequest<C>>::empty(),
    {
        self.pending.clear();
    }

    /// Returns all pending requests that have been registered with [`State::track_request`] but
    /// have not yet received a response, each of them once, in no particular order.
    ///
    /// Each item is a [`RawRequest`] containing the request ID, method name, and parameters, which
    /// can be serialized and sent to the Electrum server.
    pub fn pending_requests(&self) -> (requests: Vec<RawRequest>)
        ensures
            self@.dom().finite(),
            requests@.len() == self@.dom().len(),
            forall|i: int|
                0 <= i < requests@.len() ==> self@.contains_key((#[trigger] requests@[i]).id)
                    && requests@[i]@ == asked(requests@[i].id, self@[requests@[i].id]),
            forall|i: int|
                #![trigger requests@[i]]
                0 <= i < requests@.len() ==> {
                    &&& requests@[i].jsonrpc@ == "2.0"@
                    &&& requests@[i].method@ == self@[requests@[i].id].method_text()
                    &&& value::texts(requests@[i].params@) == self@[requests@[i].id].param_texts()
                    &&& requests@[i].params@.len() == self@[requests@[i].id].param_texts().len()
                    &&& forall|j: int|
                        0 <= j < requests@[i].params@.len() ==> (
                        #[trigger] requests@[i].params@[j])@
                            == self@[requests@[i].id].param_texts()[j]
                },
            forall|i: int, j: int|
                0 <= i < j < requests@.len() ==> (#[trigger] requests@[i]).id != (
                #[trigger] requests@[j]).id,
            forall|id: u32| #[trigger]
                self@.contains_key(id) ==> exists|i: int|
                    0 <= i < requests@.len() && (#[trigger] requests@[i]).id == id,
    {
        let mut requests: Vec<RawRequest> = Vec::new();
        let entries = self.pending.iter();
        let ghost pairs = vstd::std_specs::iter::IteratorSpec::remaining(&entries);
        for (id, req) in iter: entries
            invariant
                iter.seq() == pairs,
                requests@.len() == iter.index(),
                forall|i: int|
                    0 <= i < requests@.len() ==> (#[trigger] requests@[i]).id == *pairs[i].0
                        && requests@[i]@ == asked(*pairs[i].0, *pairs[i].1),
                forall|i: int|
                    #![trigger requests@[i]]
                    0 <= i < requests@.len() ==> {
                        &&& requests@[i].jsonrpc@ == "2.0"@
                        &&& requests@[i].method@ == (*pairs[i].1).method_text()
                        &&& value::texts(requests@[i].params@) == (*pairs[i].1).param_texts()
                        &&& requests@[i].params@.len() == (*pairs[i].1).param_texts().len()
                        &&& forall|j: int|
                            0 <= j < requests@[i].params@.len() ==> (
                            #[trigger] requests@[i].params@[j])@ == (*pairs[i].1).param_texts()[j]
                    },
        {
            let (method, params) = req.to_method_and_params();
            proof {
                value::lemma_texts(params@);
            }
            requests.push(RawRequest::new(*id, method, params));
        }
        proof {
            assert forall|i: int, j: int| 0 <= i < j < requests@.len() implies (
            #[trigger] requests@[i]).id != (#[trigger] requests@[j]).id by {
                assert(pairs[i] != pairs[j]);
                assert(self.pending@[*pairs[i].0] == *pairs[i].1);
                assert(self.pending@[*pairs[j].0] == *pairs[j].1);
            }
            assert forall|id: u32| #[trigger] self@.contains_key(id) implies exists|i: int|
                0 <= i < requests@.len() && (#[trigger] requests@[i]).id == id by {
                let k = pairs.index_of((&id, &self.pending@[id]));
                assert(pairs.contains((&id, &self.pending@[id])));
                assert(requests@[k].id == id);
            }
        }
        requests
    }

    /// Returns whether there are enough IDs for this many more requests.
    ///
    /// There are as many IDs as 32 bits can tell apart, and each pending request has one.
    pub fn has_room(&self, n: usize) -> (room: bool)
        ensures
            room == room_for(self@, n as nat),
            room == (self@.dom().len() + n <= 0x1_0000_0000),
    {
        let ids: u64 = 0x1_0000_0000;
        if n as u64 > ids {
            false
        } else {
            self.pending.len() as u64 <= ids - n as u64
        }
    }

    fn next_free_id(&self, first: u32) -> (id: u32)
        requires
            room_for(self@, 1),
        ensures
            id == ids::free_id(self@.dom(), first),
    {
        let mut id: u32 = first;
        let ghost mut index: nat = 0;
        while self.pending.contains_key(&id)
            invariant
                room_for(self@, 1),
                id == ids::nth_id(first, index),
                index < 0x1_0000_0000,
                forall|j: nat| j < index ==> self@.dom().contains(#[trigger] ids::nth_id(first, j)),
            decreases 0x1_0000_0000 - index,
        {
            proof {
                ids::lemma_ids_continue(first, index, 1);
                ids::lemma_run_of_ids(self@.dom(), first, index + 1);
                index = index + 1;
            }
            id = id.wrapping_add(1);
        }
        proof {
            ids::lemma_first_free(self@.dom(), first, index);
        }
        id
    }

    fn add_request(&mut self, next_id: &mut u32, req: PendingRequest<C>) -> (request: RawRequest)
        requires
            room_for(old(self)@, 1),
        ensures
            final(self)@ == old(self)@.insert(
                ids::free_id(old(self)@.dom(), *old(next_id)),
                req,
            ),
            *final(next_id) == ids::nth_id(ids::free_id(old(self)@.dom(), *old(next_id)), 1),
            request@ == asked(ids::free_id(old(self)@.dom(), *old(next_id)), req),
            request.id == ids::free_id(old(self)@.dom(), *old(next_id)),
            ({
                &&& request.jsonrpc@ == "2.0"@
                &&& request.method@ == req.method_text()
                &&& value::texts(request.params@) == req.param_texts()
                &&& request.params@.len() == req.param_texts().len()
                &&& forall|j: int|
                    0 <= j < request.params@.len() ==> (
                    #[trigger] request.params@[j])@ == req.param_texts()[j]
            }),
    {
        let id: u32 = self.next_free_id(*next_id);
        *next_id = id.wrapping_add(1);
        let (method, params) = req.to_method_and_params();
        proof {
            value::lemma_texts(params@);
        }
        self.pending.insert(id, req);
        RawRequest::new(id, method, params)
    }

    fn add_requests(&mut self, next_id: &mut u32, reqs: Vec<PendingRequest<C>>) -> (requests: Vec<
        RawRequest,
    >)
        requires
            room_for(old(self)@, reqs@.len()),
        ensures
            final(self)@ == with_requests(old(self)@, *old(next_id), reqs@),
            *final(next_id) == ids::next_id_after(
                old(self)@.dom(),
                *old(next_id),
                reqs@.len(),
            ),
            requests@.len() == reqs@.len(),
            forall|i: int|
                0 <= i < reqs@.len() ==> (#[trigger] requests@[i])@ == asked(
                    given_ids(old(self)@, *old(next_id), reqs@)[i],
                    reqs@[i],
                ),
            forall|i: int|
                #![trigger requests@[i]]
                0 <= i < reqs@.len() ==> {
                    &&& requests@[i].jsonrpc@ == "2.0"@
                    &&& requests@[i].method@ == reqs@[i].method_text()
                    &&& value::texts(requests@[i].params@) == reqs@[i].param_texts()
                    &&& requests@[i].params@.len() == reqs@[i].param_texts().len()
                    &&& forall|j: int|
                        0 <= j < requests@[i].params@.len() ==> (
                        #[trigger] requests@[i].params@[j])@ == reqs@[i].param_texts()[j]
                },
    {
        let ghost all = reqs@;
        let ghost first = *next_id;
        let ghost taken = self@.dom();
        let mut requests: Vec<RawRequest> = Vec::new();
        for req in iter: reqs.into_iter()
            invariant
                iter.seq() == all,
                taken == old(self)@.dom(),
                taken.len() + all.len() <= 0x1_0000_0000,
                requests@.len() == iter.index(),
                self@ == with_ids(
                    old(self)@,
                    ids::free_ids(taken, first, iter.index() as nat),
                    all.take(iter.index() as int),
                ),
                *next_id == ids::next_id_after(taken, first, iter.index() as nat),
                forall|i: int|
                    0 <= i < requests@.len() ==> (#[trigger] requests@[i])@ == asked(
                        ids::free_ids(taken, first, iter.index() as nat)[i],
                        all[i],
                    ),
                forall|i: int|
                    #![trigger requests@[i]]
                    0 <= i < requests@.len() ==> {
                        &&& requests@[i].jsonrpc@ == "2.0"@
                        &&& requests@[i].method@ == all[i].method_text()
                        &&& value::texts(requests@[i].params@) == all[i].param_texts()
                        &&& requests@[i].params@.len() == all[i].param_texts().len()
                        &&& forall|j: int|
                            0 <= j < requests@[i].params@.len() ==> (
                            #[trigger] requests@[i].params@[j])@ == all[i].param_texts()[j]
                    },
        {
            proof {
                let k = iter.index() as int;
                let given = ids::free_ids(taken, first, k as nat);
                let id = ids::free_id(taken.union(given.to_set()), *next_id);
                ids::lemma_ids_unique(taken, first, k as nat);
                lemma_with_ids(old(self)@, given, all.take(k));
                assert(ids::free_ids(taken, first, (k + 1) as nat) == given.push(id));
                assert(given.push(id).drop_last() =~= given);
                assert(all.take(k + 1).drop_last() =~= all.take(k));
                assert(all.take(k + 1).last() == all[k]);
            }
            requests.push(self.add_request(next_id, req));
        }
        assert(all.take(all.len() as int) == all);
        requests
    }

    /// Registers a new request (or batch of requests) and returns the corresponding [`RawRequest`]
    /// or batch of [`RawRequest`]s to be sent to the Electrum server.
    ///
    /// Each request is assigned a unique ID (via `next_id`) and stored internally until a matching
    /// response is received via [`State::process_incoming`]. An ID under which a request still
    /// waits is passed over.
    ///
    /// Returns a [`MaybeBatch<RawRequest>`], preserving whether the input was a single request or a
    /// batch.
    pub fn track_request(
        &mut self,
        next_id: &mut u32,
        req: MaybeBatch<PendingRequest<C>>,
    ) -> (requests: MaybeBatch<RawRequest>)
        requires
            old(self)@.dom().len() + req.items().len() <= 0x1_0000_0000,
        ensures
            requests.same_shape(req),
            requests.items().len() == req.items().len(),
            // Each request is asked for under an ID that nothing waits under, and waits under it.
            forall|i: int|
                0 <= i < req.items().len() ==> {
                    let id = (#[trigger] requests.items()[i]).id;
                    &&& !old(self)@.contains_key(id)
                    &&& final(self)@.contains_key(id)
                    &&& final(self)@[id] == req.items()[i]
                    &&& requests.items()[i]@ == asked(id, req.items()[i])
                },
            // Each message asks for its request: it has the method and every parameter of it.
            forall|i: int|
                #![trigger requests.items()[i]]
                0 <= i < req.items().len() ==> {
                    &&& requests.items()[i].jsonrpc@ == "2.0"@
                    &&& requests.items()[i].method@ == req.items()[i].method_text()
                    &&& value::texts(requests.items()[i].params@) == req.items()[i].param_texts()
                    &&& requests.items()[i].params@.len() == req.items()[i].param_texts().len()
                    &&& forall|j: int|
                        0 <= j < requests.items()[i].params@.len() ==> (
                        #[trigger] requests.items()[i].params@[j])@
                            == req.items()[i].param_texts()[j]
                },
            requests is Single <==> req is Single,
            forall|i: int, j: int|
                0 <= i < j < req.items().len() ==> (#[trigger] requests.items()[i]).id != (
                #[trigger] requests.items()[j]).id,
            // What waited before still waits, and nothing else does.
            forall|id: u32| #[trigger]
                old(self)@.contains_key(id) ==> final(self)@.contains_key(id) && final(self)@[id]
                    == old(self)@[id],
            forall|id: u32| #[trigger]
                final(self)@.contains_key(id) ==> old(self)@.contains_key(id) || exists|i: int|
                    0 <= i < requests.items().len() && (#[trigger] requests.items()[i]).id == id,
            final(self)@.dom().len() == old(self)@.dom().len() + req.items().len(),
            // The IDs are the first free ones from `next_id` on.
            final(self)@ == with_requests(old(self)@, *old(next_id), req.items()),
            forall|i: int|
                0 <= i < req.items().len() ==> (#[trigger] requests.items()[i]).id == given_ids(
                    old(self)@,
                    *old(next_id),
                    req.items(),
                )[i],
            *final(next_id) == ids::next_id_after(
                old(self)@.dom(),
                *old(next_id),
                req.items().len(),
            ),
            (forall|k: nat|
                k < req.items().len() ==> !old(self)@.contains_key(
                    #[trigger] ids::nth_id(*old(next_id), k),
                )) ==> {
                &&& forall|i: int|
                    0 <= i < req.items().len() ==> (#[trigger] requests.items()[i]).id
                        == ids::nth_id(*old(next_id), i as nat)
                &&& *final(next_id) == ids::nth_id(*old(next_id), req.items().len())
            },
    {
        let ghost before = self@;
        let ghost first = *next_id;
        let ghost reqs = req.items();
        let requests = match req {
            MaybeBatch::Single(req) => {
                proof {
                    reveal_with_fuel(with_ids, 2);
                    reveal_with_fuel(ids::give, 2);
                    assert(before.dom().union(Seq::<u32>::empty().to_set()) =~= before.dom());
                    assert(seq![req].drop_last() =~= Seq::<PendingRequest<C>>::empty());
                }
                MaybeBatch::Single(self.add_request(next_id, req))
            },
            MaybeBatch::Batch(reqs) => MaybeBatch::Batch(self.add_requests(next_id, reqs)),
        };
        proof {
            let given = given_ids(before, first, reqs);
            ids::lemma_ids_unique(before.dom(), first, reqs.len());
            lemma_with_ids(before, given, reqs);
            assert forall|i: int| 0 <= i < reqs.len() implies (#[trigger] requests.items()[i]).id
                == given[i] && self@.contains_key(given[i]) by {
                assert(requests.items()[i]@.id == given[i]);
                assert(given.to_set().contains(given[i]));
            }
            assert forall|id: u32| #[trigger] before.contains_key(id) implies self@.contains_key(id)
                && self@[id] == before[id] by {
                assert(before.dom().contains(id));
                assert(!given.contains(id));
            }
            assert forall|id: u32| #[trigger] self@.contains_key(id) implies before.contains_key(id)
                || exists|i: int|
                0 <= i < requests.items().len() && (#[trigger] requests.items()[i]).id == id by {
                assert(self@.dom().contains(id));
                if given.contains(id) {
                    let i = choose|i: int| 0 <= i < given.len() && given[i] == id;
                    assert(requests.items()[i].id == id);
                }
            }
            if forall|k: nat|
                k < reqs.len() ==> !before.contains_key(#[trigger] ids::nth_id(first, k)) {
                ids::lemma_ids_in_order(before.dom(), first, reqs.len());
            }
        }
        requests
    }

    /// Processes an incoming notification or response from the Electrum server and updates internal
    /// state.
    ///
    /// If the input is a server-initiated notification, an [`Event::Notification`] is returned. If
    /// it is a response to a previously tracked request, the corresponding request is resolved: the
    /// response goes to its callback, or an [`Event::Response`] or [`Event::ResponseError`] is
    /// returned.
    ///
    /// Returns `Err(ProcessError)` if the input could not be parsed or did not match any known
    /// request.
    pub fn process_incoming<D: Decoder>(
        &mut self,
        notification_or_response: RawNotificationOrResponse,
        decoder: &D,
    ) -> (outcome: Result<Handled<C>, ProcessError>)
        ensures
            final(self)@ == remaining(old(self)@, notification_or_response),
            processes(old(self)@, notification_or_response, decoder, outcome),
            notification_or_response matches RawNotificationOrResponse::Notification(raw) ==> {
                &&& final(self)@ == old(self)@
                &&& match outcome {
                    Ok(Handled::Event(Event::Notification(n))) => {
                        Notification::parses(raw, decoder, Ok(n))
                    },
                    Err(ProcessError::CannotDeserializeNotification { method, params, error }) => {
                        &&& method == raw.method
                        &&& params == raw.params
                        &&& Notification::parses(raw, decoder, Err(error))
                    },
                    _ => false,
                }
            },
            notification_or_response matches RawNotificationOrResponse::Response(resp) ==> {
                &&& !final(self)@.contains_key(resp.id)
                &&& forall|id: u32|
                    id != resp.id ==> (#[trigger] final(self)@.contains_key(id) <==> old(
                        self,
                    )@.contains_key(id))
                &&& forall|id: u32| id != resp.id ==> #[trigger] final(self)@[id] == old(self)@[id]
                &&& match outcome {
                    Ok(handled) => {
                        &&& old(self)@.contains_key(resp.id)
                        &&& old(self)@[resp.id].handles(resp.result, decoder, Ok(handled))
                    },
                    Err(ProcessError::CannotDeserializeResponse(id, error)) => {
                        &&& id == resp.id
                        &&& old(self)@.contains_key(resp.id)
                        &&& old(self)@[resp.id].handles(resp.result, decoder, Err(error))
                    },
                    Err(ProcessError::MissingRequest(id)) => {
                        &&& id == resp.id
                        &&& !old(self)@.contains_key(resp.id)
                    },
                    Err(_) => false,
                }
            },
    {
        match notification_or_response {
            RawNotificationOrResponse::Notification(raw) => {
                let parsed = Notification::new(&raw, decoder);
                assert(Notification::parses(raw, decoder, parsed));
                match parsed {
                    Ok(notification) => Ok(Handled::Event(Event::Notification(notification))),
                    Err(error) => Err(
                        ProcessError::CannotDeserializeNotification {
                            method: raw.method,
                            params: raw.params,
                            error,
                        },
                    ),
                }
            },
            RawNotificationOrResponse::Response(resp) => match self.pending.remove(&resp.id) {
                Some(pending_req) => {
                    let handled = pending_req.handle(resp.result, decoder);
                    assert(pending_req.handles(resp.result, decoder, handled));
                    match handled {
                        Ok(handled) => Ok(handled),
                        Err(error) => Err(ProcessError::CannotDeserializeResponse(resp.id, error)),
                    }
                },
                None => Err(ProcessError::MissingRequest(resp.id)),
            },
        }
    }
}

/// Headers stand at consecutive heights, from the height that was asked for.
pub proof fn lemma_headers_consecutive(start: u32, headers: Seq<BlockHeader>, i: int)
    requires
        start + headers.len() <= 0x1_0000_0000,
        0 <= i < headers.len(),
    ensures
        numbered(start, headers).len() == headers.len(),
        numbered(start, headers)[i].0 == start + i,
        numbered(start, headers)[i].1 == headers[i],
{
}

/// An event with headers gives each of them once, with its height: the one that was asked for, the
/// one that the server told, or, for a run of headers, consecutive heights from the first that was
/// asked for. Every other event gives none.
pub proof fn lemma_headers_of_event(event: Event)
    requires
        event.heights_fit(),
    ensures
        event matches Event::Response(CompletedRequest::Header { req, resp }) ==> {
            &&& event.headers() matches Some(pairs)
            &&& pairs.len() == 1
            &&& pairs[0].0 == req.height
            &&& pairs[0].1 == resp.header
        },
        event matches Event::Response(CompletedRequest::HeaderWithProof { req, resp }) ==> {
            &&& event.headers() matches Some(pairs)
            &&& pairs.len() == 1
            &&& pairs[0].0 == req.height
            &&& pairs[0].1 == resp.header
        },
        event matches Event::Response(CompletedRequest::Headers { req, resp }) ==> {
            &&& event.headers() matches Some(pairs)
            &&& pairs.len() == resp.headers@.len()
            &&& forall|i: int|
                0 <= i < resp.headers@.len() ==> (#[trigger] pairs[i]).0 == req.start_height
                    + i && pairs[i].1 == resp.headers@[i]
        },
        event matches Event::Response(CompletedRequest::HeadersWithCheckpoint { req, resp }) ==> {
            &&& event.headers() matches Some(pairs)
            &&& pairs.len() == resp.headers@.len()
            &&& forall|i: int|
                0 <= i < resp.headers@.len() ==> (#[trigger] pairs[i]).0 == req.start_height
                    + i && pairs[i].1 == resp.headers@[i]
        },
        event matches Event::Response(CompletedRequest::HeadersSubscribe { resp, .. }) ==> {
            &&& event.headers() matches Some(pairs)
            &&& pairs.len() == 1
            &&& pairs[0].0 == resp.height
            &&& pairs[0].1 == resp.header
        },
        event matches Event::Notification(Notification::Header(n)) ==> {
            &&& event.headers() matches Some(pairs)
            &&& pairs.len() == 1
            &&& pairs[0].0 == n.tip().height
            &&& pairs[0].1 == n.tip().header
        },
        event.headers() is Some <==> match event {
            Event::Response(completed) => {
                ||| completed is Header
                ||| completed is HeaderWithProof
                ||| completed is Headers
                ||| completed is HeadersWithCheckpoint
                ||| completed is HeadersSubscribe
            },
            Event::ResponseError(_) => false,
            Event::Notification(notification) => notification is Header,
        },
{
}

/// Only a run of headers can reach beyond the heights that fit into 32 bits, and it does where it
/// has more headers than there are heights from the first on.
pub proof fn lemma_heights_that_fit(event: Event)
    ensures
        event matches Event::Response(CompletedRequest::Headers { req, resp }) ==> (
        event.heights_fit() <==> req.start_height + resp.headers@.len() <= 0x1_0000_0000),
        event matches Event::Response(CompletedRequest::HeadersWithCheckpoint { req, resp }) ==> (
        event.heights_fit() <==> req.start_height + resp.headers@.len() <= 0x1_0000_0000),
        !event.heights_fit() ==> {
            &&& event matches Event::Response(completed)
            &&& completed is Headers || completed is HeadersWithCheckpoint
        },
{
}

/// After tracking requests, each waits under the ID that it was given.
pub proof fn lemma_request_waits<C>(
    pending: Map<u32, PendingRequest<C>>,
    first: u32,
    reqs: Seq<PendingRequest<C>>,
    k: int,
)
    requires
        0 <= k < reqs.len(),
        room_for(pending, reqs.len()),
    ensures
        with_requests(pending, first, reqs).contains_key(given_ids(pending, first, reqs)[k]),
        with_requests(pending, first, reqs)[given_ids(pending, first, reqs)[k]] == reqs[k],
{
    let given = given_ids(pending, first, reqs);
    ids::lemma_ids_unique(pending.dom(), first, reqs.len());
    lemma_with_ids(pending, given, reqs);
    assert(given.to_set().contains(given[k]));
    assert(with_requests(pending, first, reqs).dom().contains(given[k]));
}

/// Requests that are tracked get IDs that no waiting request has, each its own.
pub proof fn lemma_given_ids_unique<C>(
    pending: Map<u32, PendingRequest<C>>,
    first: u32,
    reqs: Seq<PendingRequest<C>>,
)
    requires
        room_for(pending, reqs.len()),
    ensures
        given_ids(pending, first, reqs).len() == reqs.len(),
        given_ids(pending, first, reqs).no_duplicates(),
        forall|i: int|
            0 <= i < reqs.len() ==> !pending.contains_key(
                #[trigger] given_ids(pending, first, reqs)[i],
            ),
{
    ids::lemma_ids_unique(pending.dom(), first, reqs.len());
    assert forall|i: int| 0 <= i < reqs.len() implies !pending.contains_key(
        #[trigger] given_ids(pending, first, reqs)[i],
    ) by {
        assert(!pending.dom().contains(given_ids(pending, first, reqs)[i]));
    }
}

/// Tracking requests changes nothing for a request that waits already.
pub proof fn lemma_waiting_request_stays<C>(
    pending: Map<u32, PendingRequest<C>>,
    first: u32,
    reqs: Seq<PendingRequest<C>>,
    id: u32,
)
    requires
        pending.contains_key(id),
        room_for(pending, reqs.len()),
    ensures
        with_requests(pending, first, reqs).contains_key(id),
        with_requests(pending, first, reqs)[id] == pending[id],
{
    let given = given_ids(pending, first, reqs);
    ids::lemma_ids_unique(pending.dom(), first, reqs.len());
    lemma_with_ids(pending, given, reqs);
    assert(pending.dom().contains(id));
    assert(!given.contains(id));
    assert(with_requests(pending, first, reqs).dom().contains(id));
}

/// The message that asks for a waiting request is the one that tracking it gave.
pub proof fn lemma_asked_again<C>(
    pending: Map<u32, PendingRequest<C>>,
    first: u32,
    reqs: Seq<PendingRequest<C>>,
    k: int,
)
    requires
        0 <= k < reqs.len(),
        room_for(pending, reqs.len()),
    ensures
        with_requests(pending, first, reqs).contains_key(given_ids(pending, first, reqs)[k]),
        asked(
            given_ids(pending, first, reqs)[k],
            with_requests(pending, first, reqs)[given_ids(pending, first, reqs)[k]],
        ) == asked(given_ids(pending, first, reqs)[k], reqs[k]),
{
    lemma_request_waits(pending, first, reqs, k);
}

/// A response under the ID of a waiting request is handled by that request.
pub proof fn lemma_waiting_request_handles<C, D: Decoder>(
    pending: Map<u32, PendingRequest<C>>,
    resp: RawResponse,
    decoder: &D,
    outcome: Result<Handled<C>, ProcessError>,
)
    requires
        pending.contains_key(resp.id),
        processes(pending, RawNotificationOrResponse::Response(resp), decoder, outcome),
    ensures
        match outcome {
            Ok(handled) => pending[resp.id].handles(resp.result, decoder, Ok(handled)),
            Err(ProcessError::CannotDeserializeResponse(id, error)) => id == resp.id
                && pending[resp.id].handles(resp.result, decoder, Err(error)),
            Err(_) => false,
        },
{
}

/// A response under the ID of a request that was tracked resolves that request: what comes of it
/// is what that request makes of it, and the request waits no longer.
pub proof fn lemma_response_resolves<C, D: Decoder>(
    pending: Map<u32, PendingRequest<C>>,
    first: u32,
    reqs: Seq<PendingRequest<C>>,
    k: int,
    resp: RawResponse,
    decoder: &D,
    outcome: Result<Handled<C>, ProcessError>,
)
    requires
        0 <= k < reqs.len(),
        room_for(pending, reqs.len()),
        resp.id == given_ids(pending, first, reqs)[k],
        processes(
            with_requests(pending, first, reqs),
            RawNotificationOrResponse::Response(resp),
            decoder,
            outcome,
        ),
    ensures
        match outcome {
            Ok(handled) => reqs[k].handles(resp.result, decoder, Ok(handled)),
            Err(ProcessError::CannotDeserializeResponse(id, error)) => id == resp.id
                && reqs[k].handles(resp.result, decoder, Err(error)),
            Err(_) => false,
        },
        !remaining(
            with_requests(pending, first, reqs),
            RawNotificationOrResponse::Response(resp),
        ).contains_key(resp.id),
{
    lemma_request_waits(pending, first, reqs, k);
    lemma_waiting_request_handles(
        with_requests(pending, first, reqs),
        resp,
        decoder,
        outcome,
    );
}

/// An error response to a request that was tracked is always handed on to its callback, or as the
/// event that names the request and the error.
pub proof fn lemma_error_response_resolves<C, D: Decoder>(
    pending: Map<u32, PendingRequest<C>>,
    first: u32,
    reqs: Seq<PendingRequest<C>>,
    k: int,
    resp: RawResponse,
    decoder: &D,
    outcome: Result<Handled<C>, ProcessError>,
)
    requires
        0 <= k < reqs.len(),
        room_for(pending, reqs.len()),
        resp.id == given_ids(pending, first, reqs)[k],
        resp.result is Err,
        processes(
            with_requests(pending, first, reqs),
            RawNotificationOrResponse::Response(resp),
            decoder,
            outcome,
        ),
    ensures
        outcome == Ok::<Handled<C>, ProcessError>(reqs[k].refused(resp.result->Err_0)),
{
    lemma_response_resolves(pending, first, reqs, k, resp, decoder, outcome);
}

/// The message that asks for a request has its ID, its method and every parameter of it.
pub proof fn lemma_asked_parts<C>(id: u32, req: PendingRequest<C>)
    ensures
        asked(id, req).jsonrpc == "2.0"@,
        asked(id, req).id == id,
        asked(id, req).method == req.method_text(),
        asked(id, req).params == req.param_texts(),
{
}

/// After tracking requests, nothing waits but them and what waited before.
pub proof fn lemma_nothing_else_waits<C>(
    pending: Map<u32, PendingRequest<C>>,
    first: u32,
    reqs: Seq<PendingRequest<C>>,
    id: u32,
)
    requires
        room_for(pending, reqs.len()),
        with_requests(pending, first, reqs).contains_key(id),
    ensures
        pending.contains_key(id) || given_ids(pending, first, reqs).contains(id),
{
    let given = given_ids(pending, first, reqs);
    ids::lemma_ids_unique(pending.dom(), first, reqs.len());
    if !pending.contains_key(id) {
        lemma_with_ids_domain(pending, given, reqs, id);
    }
}

/// There is room for requests exactly where they and the waiting ones are no more than there are
/// IDs.
pub proof fn lemma_room<C>(pending: Map<u32, PendingRequest<C>>, n: nat)
    ensures
        room_for(pending, n) <==> pending.dom().len() + n <= 0x1_0000_0000,
{
}

/// Where a response is handed out for a waiting request, it is exactly what the decoder read from
/// the raw result by the method for that type of request, and it is handed out with that request.
pub proof fn lemma_processed_response<C, D: Decoder>(
    pending: Map<u32, PendingRequest<C>>,
    answer: RawResponse,
    raw: Value,
    decoder: &D,
    handled: Handled<C>,
    completed: CompletedRequest,
)
    requires
        answer.result == Ok::<Value, Value>(raw),
        processes(pending, RawNotificationOrResponse::Response(answer), decoder, Ok(handled)),
        match handled {
            Handled::Delivered(_, reply) => reply == Ok::<CompletedRequest, ResponseError>(
                completed,
            ),
            Handled::Event(event) => event == Event::Response(completed),
        },
    ensures
        pending.contains_key(answer.id),
        pending[answer.id].request() matches AnyRequest::Header(req) ==> {
            &&& completed matches CompletedRequest::Header { req: asked, resp }
            &&& asked == req
            &&& request::Header::response_in(completed) == Some(resp)
            &&& call_ensures(D::header, (decoder, &raw), Ok(resp))
        },
        pending[answer.id].request() matches AnyRequest::HeaderWithProof(req) ==> {
            &&& completed matches CompletedRequest::HeaderWithProof { req: asked, resp }
            &&& asked == req
            &&& request::HeaderWithProof::response_in(completed) == Some(resp)
            &&& call_ensures(D::header_with_proof, (decoder, &raw), Ok(resp))
        },
        pending[answer.id].request() matches AnyRequest::Headers(req) ==> {
            &&& completed matches CompletedRequest::Headers { req: asked, resp }
            &&& asked == req
            &&& request::Headers::response_in(completed) == Some(resp)
            &&& call_ensures(D::headers, (decoder, &raw), Ok(resp))
        },
        pending[answer.id].request() matches AnyRequest::HeadersWithCheckpoint(req) ==> {
            &&& completed matches CompletedRequest::HeadersWithCheckpoint { req: asked, resp }
            &&& asked == req
            &&& request::HeadersWithCheckpoint::response_in(completed) == Some(resp)
            &&& call_ensures(D::headers_with_checkpoint, (decoder, &raw), Ok(resp))
        },
        pending[answer.id].request() matches AnyRequest::EstimateFee(req) ==> {
            &&& completed matches CompletedRequest::EstimateFee { req: asked, resp }
            &&& asked == req
            &&& request::EstimateFee::response_in(completed) == Some(resp)
            &&& call_ensures(D::estimate_fee, (decoder, &raw), Ok(resp))
        },
        pending[answer.id].request() matches AnyRequest::HeadersSubscribe(req) ==> {
            &&& completed matches CompletedRequest::HeadersSubscribe { req: asked, resp }
            &&& asked == req
            &&& request::HeadersSubscribe::response_in(completed) == Some(resp)
            &&& call_ensures(D::headers_subscribe, (decoder, &raw), Ok(resp))
        },
        pending[answer.id].request() matches AnyRequest::RelayFee(req) ==> {
            &&& completed matches CompletedRequest::RelayFee { req: asked, resp }
            &&& asked == req
            &&& request::RelayFee::response_in(completed) == Some(resp)
            &&& call_ensures(D::relay_fee, (decoder, &raw), Ok(resp))
        },
        pending[answer.id].request() matches AnyRequest::GetBalance(req) ==> {
            &&& completed matches CompletedRequest::GetBalance { req: asked, resp }
            &&& asked == req
            &&& request::GetBalance::response_in(completed) == Some(resp)
            &&& call_ensures(D::balance, (decoder, &raw), Ok(resp))
        },
        pending[answer.id].request() matches AnyRequest::GetHistory(req) ==> {
            &&& completed matches CompletedRequest::GetHistory { req: asked, resp }
            &&& asked == req
            &&& request::GetHistory::response_in(completed) == Some(resp)
            &&& call_ensures(D::history, (decoder, &raw), Ok(resp))
        },
        pending[answer.id].request() matches AnyRequest::GetMempool(req) ==> {
            &&& completed matches CompletedRequest::GetMempool { req: asked, resp }
            &&& asked == req
            &&& request::GetMempool::response_in(completed) == Some(resp)
            &&& call_ensures(D::mempool, (decoder, &raw), Ok(resp))
        },
        pending[answer.id].request() matches AnyRequest::ListUnspent(req) ==> {
            &&& completed matches CompletedRequest::ListUnspent { req: asked, resp }
            &&& asked == req
            &&& request::ListUnspent::response_in(completed) == Some(resp)
            &&& call_ensures(D::unspent, (decoder, &raw), Ok(resp))
        },
        pending[answer.id].request() matches AnyRequest::ScriptHashSubscribe(req) ==> {
            &&& completed matches CompletedRequest::ScriptHashSubscribe { req: asked, resp }
            &&& asked == req
            &&& request::ScriptHashSubscribe::response_in(completed) == Some(resp)
            &&& call_ensures(D::script_status, (decoder, &raw), Ok(resp))
        },
        pending[answer.id].request() matches AnyRequest::ScriptHashUnsubscribe(req) ==> {
            &&& completed matches CompletedRequest::ScriptHashUnsubscribe { req: asked, resp }
            &&& asked == req
            &&& request::ScriptHashUnsubscribe::response_in(completed) == Some(resp)
            &&& call_ensures(D::flag, (decoder, &raw), Ok(resp))
        },
        pending[answer.id].request() matches AnyRequest::BroadcastTx(req) ==> {
            &&& completed matches CompletedRequest::BroadcastTx { req: asked, resp }
            &&& asked == req
            &&& request::BroadcastTx::response_in(completed) == Some(resp)
            &&& call_ensures(D::txid, (decoder, &raw), Ok(resp))
        },
        pending[answer.id].request() matches AnyRequest::GetTx(req) ==> {
            &&& completed matches CompletedRequest::GetTx { req: asked, resp }
            &&& asked == req
            &&& request::GetTx::response_in(completed) == Some(resp)
            &&& call_ensures(D::full_tx, (decoder, &raw), Ok(resp))
        },
        pending[answer.id].request() matches AnyRequest::GetTxMerkle(req) ==> {
            &&& completed matches CompletedRequest::GetTxMerkle { req: asked, resp }
            &&& asked == req
            &&& request::GetTxMerkle::response_in(completed) == Some(resp)
            &&& call_ensures(D::tx_merkle, (decoder, &raw), Ok(resp))
        },
        pending[answer.id].request() matches AnyRequest::GetTxidFromPos(req) ==> {
            &&& completed matches CompletedRequest::GetTxidFromPos { req: asked, resp }
            &&& asked == req
            &&& request::GetTxidFromPos::response_in(completed) == Some(resp)
            &&& call_ensures(D::txid_from_pos, (decoder, &raw), Ok(resp))
        },
        pending[answer.id].request() matches AnyRequest::GetFeeHistogram(req) ==> {
            &&& completed matches CompletedRequest::GetFeeHistogram { req: asked, resp }
            &&& asked == req
            &&& request::GetFeeHistogram::response_in(completed) == Some(resp)
            &&& call_ensures(D::fee_histogram, (decoder, &raw), Ok(resp))
        },
        pending[answer.id].request() matches AnyRequest::Banner(req) ==> {
            &&& completed matches CompletedRequest::Banner { req: asked, resp }
            &&& asked == req
            &&& request::Banner::response_in(completed) == Some(resp)
            &&& call_ensures(D::string, (decoder, &raw), Ok(resp))
        },
        pending[answer.id].request() matches AnyRequest::Features(req) ==> {
            &&& completed matches CompletedRequest::Features { req: asked, resp }
            &&& asked == req
            &&& request::Features::response_in(completed) == Some(resp)
            &&& call_ensures(D::server_features, (decoder, &raw), Ok(resp))
        },
        pending[answer.id].request() matches AnyRequest::Ping(req) ==> {
            &&& completed matches CompletedRequest::Ping { req: asked, resp }
            &&& asked == req
            &&& request::Ping::response_in(completed) == Some(resp)
            &&& call_ensures(D::nothing, (decoder, &raw), Ok(resp))
        },
        pending[answer.id].request() matches AnyRequest::Version(req) ==> {
            &&& completed matches CompletedRequest::Version { req: asked, resp }
            &&& asked == req
            &&& request::Version::response_in(completed) == Some(resp)
            &&& call_ensures(D::strings, (decoder, &raw), Ok(resp))
        },
        pending[answer.id].request() matches AnyRequest::SpSubscribe(req) ==> {
            &&& completed matches CompletedRequest::SpSubscribe { req: asked, resp }
            &&& asked == req
            &&& request::SpSubscribe::response_in(completed) == Some(resp)
            &&& call_ensures(D::string, (decoder, &raw), Ok(resp))
        },
        pending[answer.id].request() matches AnyRequest::SpUnSubscribe(req) ==> {
            &&& completed matches CompletedRequest::SpUnSubscribe { req: asked, resp }
            &&& asked == req
            &&& request::SpUnSubscribe::response_in(completed) == Some(resp)
            &&& call_ensures(D::string, (decoder, &raw), Ok(resp))
        },
        pending[answer.id].request() matches AnyRequest::Custom(req) ==> {
            &&& completed matches CompletedRequest::Custom { req: asked, resp }
            &&& asked == req
            &&& request::Custom::response_in(completed) == Some(resp)
            &&& resp == raw
        },
{
    let waiting = pending[answer.id];
    lemma_result_is_handled(waiting, raw, decoder, Ok(handled));
    lemma_response_is_what_was_read(waiting.request(), decoder, raw, Ok(completed));
}

/// A response resolves no other request than its own.
pub proof fn lemma_other_requests_wait<C>(
    pending: Map<u32, PendingRequest<C>>,
    resp: RawResponse,
    id: u32,
)
    requires
        id != resp.id,
    ensures
        remaining(pending, RawNotificationOrResponse::Response(resp)).contains_key(id)
            == pending.contains_key(id),
        remaining(pending, RawNotificationOrResponse::Response(resp))[id] == pending[id],
{
}

/// A response under an ID that no request waits under is an error and changes nothing.
pub proof fn lemma_unknown_response<C, D: Decoder>(
    pending: Map<u32, PendingRequest<C>>,
    resp: RawResponse,
    decoder: &D,
    outcome: Result<Handled<C>, ProcessError>,
)
    requires
        !pending.contains_key(resp.id),
        processes(pending, RawNotificationOrResponse::Response(resp), decoder, outcome),
    ensures
        outcome == Err::<Handled<C>, ProcessError>(ProcessError::MissingRequest(resp.id)),
        remaining(pending, RawNotificationOrResponse::Response(resp)) == pending,
{
    assert(pending.remove(resp.id) =~= pending);
}

/// A request is resolved once: a second response under the same ID finds no request.
pub proof fn lemma_resolved_once<C, D: Decoder>(
    pending: Map<u32, PendingRequest<C>>,
    once: RawResponse,
    again: RawResponse,
    decoder: &D,
    outcome: Result<Handled<C>, ProcessError>,
)
    requires
        again.id == once.id,
        processes(
            remaining(pending, RawNotificationOrResponse::Response(once)),
            RawNotificationOrResponse::Response(again),
            decoder,
            outcome,
        ),
    ensures
        outcome == Err::<Handled<C>, ProcessError>(ProcessError::MissingRequest(once.id)),
{
}

/// In which order responses come in makes no difference to which requests still wait.
pub proof fn lemma_responses_commute<C>(
    pending: Map<u32, PendingRequest<C>>,
    a: RawNotificationOrResponse,
    b: RawNotificationOrResponse,
)
    ensures
        remaining(remaining(pending, a), b) == remaining(remaining(pending, b), a),
{
    assert(remaining(remaining(pending, a), b) =~= remaining(remaining(pending, b), a));
}

/// A notification resolves no request and is never answered with a callback.
pub proof fn lemma_notification_resolves_nothing<C, D: Decoder>(
    pending: Map<u32, PendingRequest<C>>,
    raw: RawNotification,
    decoder: &D,
    outcome: Result<Handled<C>, ProcessError>,
)
    requires
        processes(pending, RawNotificationOrResponse::Notification(raw), decoder, outcome),
    ensures
        remaining(pending, RawNotificationOrResponse::Notification(raw)) == pending,
        match outcome {
            Ok(Handled::Event(Event::Notification(n))) => Notification::parses(raw, decoder, Ok(n)),
            Err(ProcessError::CannotDeserializeNotification { method, params, error }) => {
                &&& method == raw.method
                &&& params == raw.params
                &&& Notification::parses(raw, decoder, Err(error))
            },
            _ => false,
        },
{
}

/// Where nothing waits, as after clearing, every response is an error.
pub proof fn lemma_nothing_waits<C, D: Decoder>(
    resp: RawResponse,
    decoder: &D,
    outcome: Result<Handled<C>, ProcessError>,
)
    requires
        processes(
            Map::<u32, PendingRequest<C>>::empty(),
            RawNotificationOrResponse::Response(resp),
            decoder,
            outcome,
        ),
    ensures
        outcome == Err::<Handled<C>, ProcessError>(ProcessError::MissingRequest(resp.id)),
{
}

/// Something that happens to a [`State`].
pub enum Operation<C> {
    /// These requests are registered.
    Track(Seq<PendingRequest<C>>),
    /// This message comes in.
    Receive(RawNotificationOrResponse),
    /// All requests are forgotten.
    Clear,
}

/// The pending requests and the next ID after an operation.
pub open spec fn after_operation<C>(
    before: (Map<u32, PendingRequest<C>>, u32),
    operation: Operation<C>,
) -> (Map<u32, PendingRequest<C>>, u32) {
    match operation {
        Operation::Track(reqs) => (
            with_requests(before.0, before.1, reqs),
            ids::next_id_after(before.0.dom(), before.1, reqs.len()),
        ),
        Operation::Receive(message) => (remaining(before.0, message), before.1),
        Operation::Clear => (Map::empty(), before.1),
    }
}

/// The pending requests and the next ID after operations, one after the other.
pub open spec fn after_operations<C>(
    before: (Map<u32, PendingRequest<C>>, u32),
    operations: Seq<Operation<C>>,
) -> (Map<u32, PendingRequest<C>>, u32)
    decreases operations.len(),
{
    if operations.len() == 0 {
        before
    } else {
        after_operation(after_operations(before, operations.drop_last()), operations.last())
    }
}

/// Whether there are enough IDs for the requests that operations register, each at its time.
pub open spec fn always_room<C>(
    before: (Map<u32, PendingRequest<C>>, u32),
    operations: Seq<Operation<C>>,
) -> bool
    decreases operations.len(),
{
    operations.len() > 0 ==> {
        &&& always_room(before, operations.drop_last())
        &&& operations.last() matches Operation::Track(reqs) ==> room_for(
            after_operations(before, operations.drop_last()).0,
            reqs.len(),
        )
    }
}

/// Whether an operation takes away the request that waits under this ID.
pub open spec fn takes<C>(operation: Operation<C>, id: u32) -> bool {
    match operation {
        Operation::Receive(RawNotificationOrResponse::Response(resp)) => resp.id == id,
        Operation::Clear => true,
        _ => false,
    }
}

/// A request is stored until a response under its ID comes in, as long as all requests are not
/// forgotten.
pub proof fn lemma_stored_until_answered<C>(
    before: (Map<u32, PendingRequest<C>>, u32),
    operations: Seq<Operation<C>>,
    id: u32,
)
    requires
        before.0.contains_key(id),
        always_room(before, operations),
        forall|i: int| 0 <= i < operations.len() ==> !takes(#[trigger] operations[i], id),
    ensures
        after_operations(before, operations).0.contains_key(id),
        after_operations(before, operations).0[id] == before.0[id],
    decreases operations.len(),
{
    if operations.len() > 0 {
        let front = operations.drop_last();
        let middle = after_operations(before, front);
        assert forall|i: int| 0 <= i < front.len() implies !takes(#[trigger] front[i], id) by {
            assert(front[i] == operations[i]);
        }
        lemma_stored_until_answered(before, front, id);
        assert(!takes(operations[operations.len() - 1], id));
        match operations.last() {
            Operation::Track(reqs) => {
                lemma_waiting_request_stays(middle.0, middle.1, reqs, id);
            },
            _ => {},
        }
    }
}

/// A request that was registered is resolved by the first response under its ID, whatever comes in
/// between, as long as all requests are not forgotten.
pub proof fn lemma_first_response_resolves<C, D: Decoder>(
    pending: Map<u32, PendingRequest<C>>,
    first: u32,
    reqs: Seq<PendingRequest<C>>,
    k: int,
    operations: Seq<Operation<C>>,
    resp: RawResponse,
    decoder: &D,
    outcome: Result<Handled<C>, ProcessError>,
)
    requires
        0 <= k < reqs.len(),
        room_for(pending, reqs.len()),
        always_room(after_operation((pending, first), Operation::Track(reqs)), operations),
        resp.id == given_ids(pending, first, reqs)[k],
        forall|i: int| 0 <= i < operations.len() ==> !takes(#[trigger] operations[i], resp.id),
        processes(
            after_operations(
                after_operation((pending, first), Operation::Track(reqs)),
                operations,
            ).0,
            RawNotificationOrResponse::Response(resp),
            decoder,
            outcome,
        ),
    ensures
        match outcome {
            Ok(handled) => reqs[k].handles(resp.result, decoder, Ok(handled)),
            Err(ProcessError::CannotDeserializeResponse(id, error)) => id == resp.id
                && reqs[k].handles(resp.result, decoder, Err(error)),
            Err(_) => false,
        },
{
    let middle = after_operation((pending, first), Operation::Track(reqs));
    lemma_request_waits(pending, first, reqs, k);
    lemma_stored_until_answered(middle, operations, resp.id);
    lemma_waiting_request_handles(
        after_operations(middle, operations).0,
        resp,
        decoder,
        outcome,
    );
}

/// Whether an operation registers a request, with this index among those of the operation, under
/// this ID.
pub open spec fn registers<C>(
    before: (Map<u32, PendingRequest<C>>, u32),
    operations: Seq<Operation<C>>,
    i: int,
    k: int,
    id: u32,
) -> bool {
    let (pending, first) = after_operations(before, operations.take(i));
    operations[i] matches Operation::Track(reqs) && 0 <= k < reqs.len() && given_ids(
        pending,
        first,
        reqs,
    )[k] == id
}

/// Where nothing waited at first, a request that waits was registered, and nothing has taken it away
/// since.
pub proof fn lemma_only_unanswered_wait<C>(
    first: u32,
    operations: Seq<Operation<C>>,
    id: u32,
) -> (place: (int, int))
    requires
        always_room((Map::<u32, PendingRequest<C>>::empty(), first), operations),
        after_operations((Map::<u32, PendingRequest<C>>::empty(), first), operations).0.contains_key(
            id,
        ),
    ensures
        0 <= place.0 < operations.len(),
        registers(
            (Map::<u32, PendingRequest<C>>::empty(), first),
            operations,
            place.0,
            place.1,
            id,
        ),
        after_operations((Map::<u32, PendingRequest<C>>::empty(), first), operations).0[id]
            == operations[place.0]->Track_0[place.1],
        forall|j: int| place.0 < j < operations.len() ==> !takes(#[trigger] operations[j], id),
    decreases operations.len(),
{
    let before = (Map::<u32, PendingRequest<C>>::empty(), first);
    let front = operations.drop_last();
    let middle = after_operations(before, front);
    let last = operations.len() - 1;
    assert(operations.len() > 0);
    assert(operations.take(last) =~= front);
    if middle.0.contains_key(id) {
        let place = lemma_only_unanswered_wait(first, front, id);
        assert(front.take(place.0) =~= operations.take(place.0));
        match operations.last() {
            Operation::Track(reqs) => {
                lemma_waiting_request_stays(middle.0, middle.1, reqs, id);
            },
            _ => {},
        }
        assert forall|j: int| place.0 < j < operations.len() implies !takes(
            #[trigger] operations[j],
            id,
        ) by {
            if j < last {
                assert(front[j] == operations[j]);
            }
        }
        place
    } else {
        match operations.last() {
            Operation::Track(reqs) => {
                let given = given_ids(middle.0, middle.1, reqs);
                ids::lemma_ids_unique(middle.0.dom(), middle.1, reqs.len());
                lemma_with_ids(middle.0, given, reqs);
                assert(with_requests(middle.0, middle.1, reqs).dom().contains(id));
                let k = choose|k: int| 0 <= k < given.len() && given[k] == id;
                (last, k)
            },
            _ => (last, 0),
        }
    }
}

/// How many requests operations register.
pub open spec fn request_count<C>(operations: Seq<Operation<C>>) -> nat
    decreases operations.len(),
{
    if operations.len() == 0 {
        0
    } else {
        request_count(operations.drop_last()) + (match operations.last() {
            Operation::Track(reqs) => reqs.len(),
            _ => 0,
        })
    }
}

proof fn lemma_request_count<C>(operations: Seq<Operation<C>>, i: int)
    requires
        0 <= i < operations.len(),
    ensures
        request_count(operations.take(i)) + (match operations[i] {
            Operation::Track(reqs) => reqs.len(),
            _ => 0,
        }) <= request_count(operations),
    decreases operations.len(),
{
    let front = operations.drop_last();
    if i < front.len() {
        lemma_request_count(front, i);
        assert(front.take(i) =~= operations.take(i));
    } else {
        assert(front =~= operations.take(i));
    }
}

proof fn lemma_with_ids_domain<C>(
    pending: Map<u32, PendingRequest<C>>,
    ids: Seq<u32>,
    reqs: Seq<PendingRequest<C>>,
    id: u32,
)
    requires
        ids.len() == reqs.len(),
        with_ids(pending, ids, reqs).contains_key(id),
        !pending.contains_key(id),
    ensures
        ids.contains(id),
    decreases reqs.len(),
{
    if reqs.len() > 0 {
        if id == ids.last() {
            assert(ids[ids.len() - 1] == id);
        } else {
            lemma_with_ids_domain(pending, ids.drop_last(), reqs.drop_last(), id);
            let i = choose|i: int|
                0 <= i < ids.drop_last().len() && ids.drop_last()[i] == id;
            assert(ids[i] == id);
        }
    }
}

proof fn lemma_ids_used<C>(first: u32, operations: Seq<Operation<C>>)
    requires
        request_count(operations) <= 0x1_0000_0000,
    ensures
        after_operations((Map::<u32, PendingRequest<C>>::empty(), first), operations).1
            == ids::nth_id(first, request_count(operations)),
        forall|id: u32| #[trigger]
            after_operations(
                (Map::<u32, PendingRequest<C>>::empty(), first),
                operations,
            ).0.contains_key(id) ==> exists|j: nat|
                j < request_count(operations) && #[trigger] ids::nth_id(first, j) == id,
    decreases operations.len(), 0nat,
{
    let before = (Map::<u32, PendingRequest<C>>::empty(), first);
    if operations.len() == 0 {
        assert(ids::nth_id(first, 0) == first);
    } else {
        let front = operations.drop_last();
        let middle = after_operations(before, front);
        let after = after_operations(before, operations);
        lemma_ids_used(first, front);
        match operations.last() {
            Operation::Track(reqs) => {
                lemma_next_ids_free(first, front, reqs.len());
                let given = given_ids(middle.0, middle.1, reqs);
                ids::lemma_ids_in_order(middle.0.dom(), middle.1, reqs.len());
                ids::lemma_ids_continue(first, request_count(front), reqs.len());
                assert forall|id: u32| #[trigger] after.0.contains_key(id) implies exists|j: nat|
                    j < request_count(operations) && #[trigger] ids::nth_id(first, j) == id by {
                    if !middle.0.contains_key(id) {
                        lemma_with_ids_domain(middle.0, given, reqs, id);
                        let k = choose|k: int| 0 <= k < given.len() && given[k] == id;
                        ids::lemma_ids_continue(first, request_count(front), k as nat);
                        assert(ids::nth_id(first, request_count(front) + k as nat) == id);
                    }
                }
            },
            _ => {
                assert forall|id: u32| #[trigger] after.0.contains_key(id) implies exists|j: nat|
                    j < request_count(operations) && #[trigger] ids::nth_id(first, j) == id by {
                    assert(middle.0.contains_key(id));
                }
            },
        }
    }
}

proof fn lemma_next_ids_free<C>(first: u32, operations: Seq<Operation<C>>, n: nat)
    requires
        request_count(operations) + n <= 0x1_0000_0000,
    ensures
        forall|k: nat|
            k < n ==> !after_operations(
                (Map::<u32, PendingRequest<C>>::empty(), first),
                operations,
            ).0.dom().contains(
                #[trigger] ids::nth_id(
                    after_operations(
                        (Map::<u32, PendingRequest<C>>::empty(), first),
                        operations,
                    ).1,
                    k,
                ),
            ),
    decreases operations.len(), 1nat,
{
    let before = (Map::<u32, PendingRequest<C>>::empty(), first);
    let after = after_operations(before, operations);
    let count = request_count(operations);
    lemma_ids_used(first, operations);
    assert forall|k: nat| k < n implies !after.0.dom().contains(
        #[trigger] ids::nth_id(after.1, k),
    ) by {
        let id = ids::nth_id(after.1, k);
        ids::lemma_ids_continue(first, count, k);
        if after.0.contains_key(id) {
            let j = choose|j: nat| j < count && #[trigger] ids::nth_id(first, j) == id;
            ids::lemma_ids_distinct(first, j, count + k);
        }
    }
}

/// Where nothing waited at first, requests get their IDs one after the other, in the order in which
/// they are registered, as long as there are no more of them than IDs.
pub proof fn lemma_ids_in_sequence<C>(
    first: u32,
    operations: Seq<Operation<C>>,
    i: int,
    reqs: Seq<PendingRequest<C>>,
    k: int,
)
    requires
        request_count(operations) <= 0x1_0000_0000,
        0 <= i < operations.len(),
        operations[i] == Operation::Track(reqs),
        0 <= k < reqs.len(),
    ensures
        registers(
            (Map::<u32, PendingRequest<C>>::empty(), first),
            operations,
            i,
            k,
            ids::nth_id(first, request_count(operations.take(i)) + k as nat),
        ),
        first == 0 ==> registers(
            (Map::<u32, PendingRequest<C>>::empty(), first),
            operations,
            i,
            k,
            (request_count(operations.take(i)) + k) as u32,
        ),
{
    let before = (Map::<u32, PendingRequest<C>>::empty(), first);
    let earlier = operations.take(i);
    let (pending, next) = after_operations(before, earlier);
    lemma_request_count(operations, i);
    lemma_ids_used(first, earlier);
    lemma_next_ids_free(first, earlier, reqs.len());
    ids::lemma_ids_in_order(pending.dom(), next, reqs.len());
    ids::lemma_ids_continue(first, request_count(earlier), k as nat);
}

} // verus!

//! Several requests in one message.

use vstd::prelude::*;

use crate::{MaybeBatch, PendingRequest, RequestExt, ResponseError};

verus! {

/// A builder for batching multiple requests to the Electrum server.
///
/// This type allows queuing both:
/// - tracked requests via [`request`] (which take a callback to receive the response), and
/// - event-style requests via [`event_request`] (which emit [`Event`]s instead of calling a
///   callback).
///
/// The batch will be converted into a raw JSON-RPC message and sent to the server.
///
/// [`request`]: Self::request
/// [`event_request`]: Self::event_request
/// [`Event`]: crate::Event
#[must_use]
#[derive(Debug)]
pub struct BatchRequest<C> {
    inner: Option<MaybeBatch<PendingRequest<C>>>,
}

impl<C> Default for BatchRequest<C> {
    fn default() -> (batch: Self)
        ensures
            batch.requests() == Seq::<PendingRequest<C>>::empty(),
    {
        BatchRequest::new()
    }
}

impl<C> BatchRequest<C> {
    #[verifier::type_invariant]
    closed spec fn wf(&self) -> bool {
        self.inner matches Some(MaybeBatch::Batch(batch)) ==> batch@.len() > 1
    }

    /// The requests in the batch, in the order in which they were added.
    pub closed spec fn requests(self) -> Seq<PendingRequest<C>> {
        match self.inner {
            None => Seq::empty(),
            Some(batch) => batch.items(),
        }
    }

    /// Creates a new empty batch request builder.
    pub fn new() -> (batch: Self)
        ensures
            batch.requests() == Seq::<PendingRequest<C>>::empty(),
    {
        BatchRequest { inner: None }
    }

    /// Consumes the batch and returns its raw contents, if any requests were added.
    ///
    /// Returns `Some` if the batch is non-empty, or `None` if it was empty. One request alone is
    /// not sent as a batch.
    pub fn into_inner(self) -> (inner: Option<MaybeBatch<PendingRequest<C>>>)
        ensures
            inner is None <==> self.requests().len() == 0,
            inner matches Some(batch) ==> {
                &&& batch.items() == self.requests()
                &&& batch is Single <==> self.requests().len() == 1
            },
    {
        proof {
            use_type_invariant(&self);
        }
        self.inner
    }

    fn push(&mut self, req: PendingRequest<C>)
        ensures
            final(self).requests() == old(self).requests().push(req),
    {
        proof {
            use_type_invariant(&*self);
        }
        let mut inner: Option<MaybeBatch<PendingRequest<C>>> = None;
        std::mem::swap(&mut inner, &mut self.inner);
        MaybeBatch::push_opt(&mut inner, req);
        self.inner = inner;
        assert(self.requests() =~= old(self).requests().push(req));
    }

    /// Adds a tracked request to the batch with a callback.
    ///
    /// The callback is to be invoked with the deserialized response (or error) once the server
    /// replies.
    pub fn request<Req: RequestExt>(&mut self, req: Req, callback: C)
        ensures
            final(self).requests().len() == old(self).requests().len() + 1,
            final(self).requests().drop_last() == old(self).requests(),
            final(self).requests().last().method_text() == req.method_text(),
            final(self).requests().last().param_texts() == req.param_texts(),
            final(self).requests().last().request() == req.any(),
            final(self).requests().last().callback() == Some(callback),
    {
        self.push(PendingRequest::new(req, Some(callback)));
        assert(self.requests().drop_last() =~= old(self).requests());
    }

    /// Adds an event-style request to the batch.
    ///
    /// These requests do not take a callback. Any server response (including the initial result
    /// and any future notifications) will be delivered as [`Event`]s.
    ///
    /// Use this for subscription-style RPCs where responses should be handled uniformly as events.
    ///
    /// [`Event`]: crate::Event
    pub fn event_request<Req: RequestExt>(&mut self, req: Req)
        ensures
            final(self).requests().len() == old(self).requests().len() + 1,
            final(self).requests().drop_last() == old(self).requests(),
            final(self).requests().last().method_text() == req.method_text(),
            final(self).requests().last().param_texts() == req.param_texts(),
            final(self).requests().last().request() == req.any(),
            final(self).requests().last().callback() is None,
    {
        self.push(PendingRequest::event(req));
        assert(self.requests().drop_last() =~= old(self).requests());
    }
}

/// An error that can occur when sending a request or polling its result.
///
/// This error is returned by client `send_request` methods when the response cannot be obtained.
///
/// It typically indicates that the batch was dropped, the client shut down, or the request
/// failed to be processed internally.
#[derive(Debug)]
pub enum BatchRequestError {
    /// The request was canceled before a response was received.
    ///
    /// This can occur if the client shuts down or if the request is dropped internally.
    Canceled,
    /// The server returned a response error.
    ///
    /// This indicates that the Electrum server replied with an error object, rather than a result.
    Response(ResponseError),
}

impl BatchRequestError {
    /// The message that describes the error.
    pub fn message(&self) -> (message: String)
        ensures
            message@ == (match *self {
                BatchRequestError::Canceled => "Request was canceled before being satisfied."@,
                BatchRequestError::Response(error) => "Request satisfied with error: "@
                    + error.text(),
            }),
            *self matches BatchRequestError::Response(error) ==> message@
                == "Request satisfied with error: "@ + ("Response.error: "@ + error.value()@),
    {
        let mut message = String::new();
        match self {
            BatchRequestError::Canceled => {
                message.append("Request was canceled before being satisfied.");
            },
            BatchRequestError::Response(error) => {
                message.append("Request satisfied with error: ");
                message.append(error.message().as_str());
            },
        }
        message
    }
}

} // verus!

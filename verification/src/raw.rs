//! The JSON-RPC messages as they go over the wire.

use vstd::prelude::*;

use crate::text;
use crate::Value;

verus! {

/// The JSON-RPC protocol version supported by this client.
///
/// Always set to `"2.0"`, as the Electrum protocol requires.
pub const JSONRPC_VERSION_2_0: &'static str = "2.0";

/// An owned or borrowed static string.
pub type CowStr = std::borrow::Cow<'static, str>;

/// A method name and its corresponding parameters, as used in a JSON-RPC request.
pub type MethodAndParams = (CowStr, Vec<Value>);

/// A server response that is either a success (`Ok`) or a JSON-RPC error (`Err`).
pub type ResponseResult<Resp> = Result<Resp, ResponseError>;

/// The characters of a static or owned string.
pub(crate) fn cow_as_str(s: &CowStr) -> (text: &str)
    ensures
        text@ == s@,
{
    match s {
        std::borrow::Cow::Borrowed(text) => text,
        std::borrow::Cow::Owned(text) => text.as_str(),
    }
}

/// A copy of a static or owned string.
pub(crate) fn cow_clone(s: &CowStr) -> (copy: CowStr)
    ensures
        copy == *s,
{
    match s {
        std::borrow::Cow::Borrowed(text) => std::borrow::Cow::Borrowed(*text),
        std::borrow::Cow::Owned(text) => std::borrow::Cow::Owned(text.clone()),
    }
}

/// Represents the `jsonrpc` version field in JSON-RPC messages.
///
/// In Electrum, this is always the string `"2.0"`, as JSON-RPC 2.0 requires.
/// It appears in all standard requests, responses, and notifications.
#[derive(Debug, Clone, Copy)]
pub struct Version;

impl Version {
    /// The version that stands in a message, or `None` where it is another one.
    pub fn from_text(text: &str) -> (version: Option<Self>)
        ensures
            version is Some <==> text@ == "2.0"@,
    {
        if text::same_text(text, JSONRPC_VERSION_2_0) {
            Some(Version)
        } else {
            None
        }
    }

    /// The version as it stands in a message.
    pub fn as_str(&self) -> (text: &'static str)
        ensures
            text@ == "2.0"@,
    {
        JSONRPC_VERSION_2_0
    }
}

impl AsRef<str> for Version {
    fn as_ref(&self) -> (text: &str)
        ensures
            text@ == "2.0"@,
    {
        JSONRPC_VERSION_2_0
    }
}

/// A raw server-initiated JSON-RPC notification.
///
/// These are Electrum messages that have a `"method"` and `"params"`, but no `"id"` field.
/// Typically emitted for subscriptions like `blockchain.headers.subscribe`.
#[derive(Debug)]
pub struct RawNotification {
    /// The JSON-RPC protocol version (should always be `"2.0"`).
    pub version: Version,
    /// The method name of the notification (e.g., `"blockchain.headers.subscribe"`).
    pub method: CowStr,
    /// The raw parameters associated with the notification.
    pub params: Value,
}

impl Clone for RawNotification {
    fn clone(&self) -> (copy: Self)
        ensures
            copy == *self,
    {
        RawNotification {
            version: self.version,
            method: cow_clone(&self.method),
            params: self.params.clone(),
        }
    }
}

/// A raw JSON-RPC response from the Electrum server.
///
/// This is the server's response to a client-issued request. It may contain either a `result`
/// or an `error`.
#[derive(Debug)]
pub struct RawResponse {
    /// The JSON-RPC protocol version (should always be `"2.0"`).
    pub version: Version,
    /// The ID that matches the request this response is answering.
    pub id: u32,
    /// The result if the request succeeded, or the error object if it failed.
    pub result: Result<Value, Value>,
}

impl Clone for RawResponse {
    fn clone(&self) -> (copy: Self)
        ensures
            copy == *self,
    {
        RawResponse {
            version: self.version,
            id: self.id,
            result: match &self.result {
                Ok(value) => Ok(value.clone()),
                Err(error) => Err(error.clone()),
            },
        }
    }
}

impl RawResponse {
    /// The result of a response from its `result` and `error` fields, as far as they are there.
    ///
    /// An error that is not `null` means that the request failed. Returns `None` where there is
    /// neither such an error nor a result.
    pub fn outcome(result: Option<Value>, error: Option<Value>) -> (outcome: Option<
        Result<Value, Value>,
    >)
        ensures
            outcome == (match (result, error) {
                (_, Some(error)) if error@ != "null"@ => Some(Err(error)),
                (Some(result), _) => Some(Ok(result)),
                (None, _) => None,
            }),
    {
        if let Some(error) = error {
            if !text::same_text(error.as_str(), "null") {
                return Some(Err(error));
            }
        }
        match result {
            Some(result) => Some(Ok(result)),
            None => None,
        }
    }
}

/// A raw incoming message from the Electrum server.
///
/// This type represents either a JSON-RPC notification (e.g., for a subscription)
/// or a response to a previously issued request.
#[derive(Debug)]
pub enum RawNotificationOrResponse {
    /// A server-initiated notification (e.g., from a subscription).
    Notification(RawNotification),
    /// A response to a previously sent request.
    Response(RawResponse),
}

impl Clone for RawNotificationOrResponse {
    fn clone(&self) -> (copy: Self)
        ensures
            copy == *self,
    {
        match self {
            RawNotificationOrResponse::Notification(notification) => {
                RawNotificationOrResponse::Notification(notification.clone())
            },
            RawNotificationOrResponse::Response(response) => {
                RawNotificationOrResponse::Response(response.clone())
            },
        }
    }
}

/// What a request says: its ID, its method and the compact texts of its parameters.
pub struct RawRequestView {
    pub jsonrpc: Seq<char>,
    pub id: u32,
    pub method: Seq<char>,
    pub params: Seq<Seq<char>>,
}

/// What a request with this ID, method and parameters says.
pub open spec fn raw_view(id: u32, method: Seq<char>, params: Seq<Seq<char>>) -> RawRequestView {
    RawRequestView { jsonrpc: "2.0"@, id, method, params }
}

/// A raw JSON-RPC request to be sent to the Electrum server.
///
/// This struct is constructed before serialization and sending. It includes all required
/// JSON-RPC fields for method calls.
#[derive(Debug)]
pub struct RawRequest {
    /// The JSON-RPC version string (usually `"2.0"`).
    pub jsonrpc: CowStr,
    /// The client-assigned request ID (used to correlate with responses).
    pub id: u32,
    /// The method to be invoked (e.g., `"blockchain.headers.subscribe"`).
    pub method: CowStr,
    /// The parameters passed to the method.
    pub params: Vec<Value>,
}

impl View for RawRequest {
    type V = RawRequestView;

    open spec fn view(&self) -> RawRequestView {
        RawRequestView {
            jsonrpc: self.jsonrpc@,
            id: self.id,
            method: self.method@,
            params: crate::value::texts(self.params@),
        }
    }
}

/// What a request says is its version, its ID, its method and the text of each of its parameters.
pub proof fn lemma_raw_request_parts(request: RawRequest)
    ensures
        request@.jsonrpc == request.jsonrpc@,
        request@.id == request.id,
        request@.method == request.method@,
        request@.params.len() == request.params@.len(),
        forall|j: int|
            0 <= j < request.params@.len() ==> #[trigger] request@.params[j] == request.params@[j]@,
{
    crate::value::lemma_texts(request.params@);
}

/// What a request with an ID, a method and parameters says is these, and the version `"2.0"`.
pub proof fn lemma_raw_view_parts(id: u32, method: Seq<char>, params: Seq<Seq<char>>)
    ensures
        raw_view(id, method, params).jsonrpc == "2.0"@,
        raw_view(id, method, params).id == id,
        raw_view(id, method, params).method == method,
        raw_view(id, method, params).params == params,
{
}

impl RawRequest {
    /// Constructs a new JSON-RPC request with the given ID, method, and parameters.
    ///
    /// This sets the JSON-RPC version to `"2.0"`.
    pub fn new(id: u32, method: CowStr, params: Vec<Value>) -> (request: Self)
        ensures
            request.jsonrpc@ == "2.0"@,
            request.id == id,
            request.method == method,
            request.params == params,
    {
        RawRequest { jsonrpc: std::borrow::Cow::Borrowed(JSONRPC_VERSION_2_0), id, method, params }
    }
}

impl Clone for RawRequest {
    fn clone(&self) -> (copy: Self)
        ensures
            copy@ == self@,
            copy.jsonrpc@ == self.jsonrpc@,
            copy.id == self.id,
            copy.method@ == self.method@,
            copy.params@ == self.params@,
    {
        let params = self.params.clone();
        assert(params@ == self.params@);
        RawRequest {
            jsonrpc: cow_clone(&self.jsonrpc),
            id: self.id,
            method: cow_clone(&self.method),
            params,
        }
    }
}

/// Electrum server responds with an error.
#[derive(Debug)]
pub struct ResponseError(pub(crate) Value);

impl ResponseError {
    /// The error object that the server sent.
    pub closed spec fn value(self) -> Value {
        self.0
    }

    /// The message that describes the error.
    pub open spec fn text(self) -> Seq<char> {
        "Response.error: "@ + self.value()@
    }

    /// The error with this error object.
    pub closed spec fn of(value: Value) -> Self {
        ResponseError(value)
    }

    /// An error is made of its error object alone.
    pub proof fn lemma_of_value(value: Value)
        ensures
            ResponseError::of(value).value() == value,
    {
    }

    /// Wraps the error object of a response.
    pub fn new(value: Value) -> (error: Self)
        ensures
            error == ResponseError::of(value),
            error.value() == value,
    {
        ResponseError(value)
    }

    /// The message that describes the error.
    pub fn message(&self) -> (message: String)
        ensures
            message@ == self.text(),
            message@ == "Response.error: "@ + self.value()@,
    {
        let mut message = String::new();
        message.append("Response.error: ");
        message.append(self.0.as_str());
        assert(message@ == self.text());
        message
    }
}

impl Clone for ResponseError {
    fn clone(&self) -> (copy: Self)
        ensures
            copy == *self,
    {
        ResponseError(self.0.clone())
    }
}

} // verus!

//! A streaming, sans-IO core of an Electrum client.

pub mod batch_request;
pub mod chain;
pub mod client;
mod debug;
pub mod decode;
pub mod hash_types;
pub mod ids;
pub mod io;
pub mod maybe_batch;
pub mod notification;
pub mod pending_request;
pub mod raw;
pub mod request;
pub mod request_ext;
pub mod response;
pub mod state;
pub mod text;
pub mod value;

pub use batch_request::{BatchRequest, BatchRequestError};
pub use chain::DoubleSHA;
pub use hash_types::{ElectrumScriptHash, ElectrumScriptStatus};
pub use maybe_batch::MaybeBatch;
pub use pending_request::{Handled, PendingRequest};
pub use raw::{
    CowStr, MethodAndParams, RawNotification, RawNotificationOrResponse, RawRequest, RawResponse,
    ResponseError, ResponseResult, Version, JSONRPC_VERSION_2_0,
};
pub use request::Request;
pub use request_ext::{AnyRequest, CompletedRequest, FailedRequest, RequestExt};
pub use state::{Event, ProcessError, State};
pub use value::Value;

//! The seam between raw JSON values and the types that they stand for.

use vstd::prelude::*;

use crate::chain::Txid;
use crate::notification::{HeaderNotification, ScriptHashNotification, SpNotification};
use crate::response;
use crate::{ElectrumScriptStatus, MaybeBatch, RawNotificationOrResponse, Value};

verus! {

/// Why a JSON value could not be read as the type that was expected.
#[derive(Debug, PartialEq, Eq)]
pub struct DecodeError {
    /// The message that describes the error.
    pub message: String,
}

impl Clone for DecodeError {
    fn clone(&self) -> (copy: Self)
        ensures
            copy == *self,
    {
        DecodeError { message: self.message.clone() }
    }
}

/// Declares `std::io::Error`, an error of input or output.
///
/// Such an error is only carried, and nothing is claimed of it.
#[verifier::external_type_specification]
#[verifier::external_body]
pub struct ExIoError(std::io::Error);

/// Reads lines as messages of the server.
pub trait MessageParser {
    /// Reads one line, without its line feed, as a message or a batch of messages.
    fn parse(&self, line: &[u8]) -> Result<MaybeBatch<RawNotificationOrResponse>, std::io::Error>;
}

/// Reads the parameters of every notification that this library knows.
///
/// Each method says why a value does not stand for what was expected.
pub trait NotificationDecoder {
    /// Reads the parameters of `"blockchain.headers.subscribe"`.
    fn header_notification(&self, params: &Value) -> Result<HeaderNotification, DecodeError>;

    /// Reads the parameters of `"blockchain.scripthash.subscribe"`.
    fn script_hash_notification(&self, params: &Value) -> Result<
        ScriptHashNotification,
        DecodeError,
    >;

    /// Reads the parameters of `"blockchain.silentpayments.subscribe"`.
    fn sp_notification(&self, params: &Value) -> Result<SpNotification, DecodeError>;
}

/// Reads the response to every request that this library knows.
///
/// Each method says why a value does not stand for what was expected.
pub trait ResponseDecoder {
    /// Reads a block header.
    fn header(&self, raw: &Value) -> Result<response::HeaderResp, DecodeError>;

    /// Reads a block header with a proof.
    fn header_with_proof(&self, raw: &Value) -> Result<response::HeaderWithProofResp, DecodeError>;

    /// Reads block headers.
    fn headers(&self, raw: &Value) -> Result<response::HeadersResp, DecodeError>;

    /// Reads block headers with a proof.
    fn headers_with_checkpoint(&self, raw: &Value) -> Result<
        response::HeadersWithCheckpointResp,
        DecodeError,
    >;

    /// Reads an estimated fee rate.
    fn estimate_fee(&self, raw: &Value) -> Result<response::EstimateFeeResp, DecodeError>;

    /// Reads the tip of the chain.
    fn headers_subscribe(&self, raw: &Value) -> Result<response::HeadersSubscribeResp, DecodeError>;

    /// Reads a relay fee.
    fn relay_fee(&self, raw: &Value) -> Result<response::RelayFeeResp, DecodeError>;

    /// Reads a balance.
    fn balance(&self, raw: &Value) -> Result<response::GetBalanceResp, DecodeError>;

    /// Reads the history of a script.
    fn history(&self, raw: &Value) -> Result<Vec<response::Tx>, DecodeError>;

    /// Reads the transactions of a script in the mempool.
    fn mempool(&self, raw: &Value) -> Result<Vec<response::MempoolTx>, DecodeError>;

    /// Reads unspent outputs.
    fn unspent(&self, raw: &Value) -> Result<Vec<response::Utxo>, DecodeError>;

    /// Reads the status of a script, if it has one.
    fn script_status(&self, raw: &Value) -> Result<Option<ElectrumScriptStatus>, DecodeError>;

    /// Reads a truth value.
    fn flag(&self, raw: &Value) -> Result<bool, DecodeError>;

    /// Reads a transaction ID.
    fn txid(&self, raw: &Value) -> Result<Txid, DecodeError>;

    /// Reads a transaction.
    fn full_tx(&self, raw: &Value) -> Result<response::FullTx, DecodeError>;

    /// Reads the proof that a block holds a transaction.
    fn tx_merkle(&self, raw: &Value) -> Result<response::TxMerkle, DecodeError>;

    /// Reads the ID of a transaction at a position.
    fn txid_from_pos(&self, raw: &Value) -> Result<response::TxidFromPos, DecodeError>;

    /// Reads a fee histogram.
    fn fee_histogram(&self, raw: &Value) -> Result<Vec<response::FeePair>, DecodeError>;

    /// Reads a string.
    fn string(&self, raw: &Value) -> Result<String, DecodeError>;

    /// Reads the features of a server.
    fn server_features(&self, raw: &Value) -> Result<response::ServerFeatures, DecodeError>;

    /// Reads nothing, which is `null`.
    fn nothing(&self, raw: &Value) -> Result<(), DecodeError>;

    /// Reads strings.
    fn strings(&self, raw: &Value) -> Result<Vec<String>, DecodeError>;
}

/// Reads everything that a server sends.
pub trait Decoder: NotificationDecoder + ResponseDecoder {

}

} // verus!

//! Defines parsed Electrum server notifications.
//!
//! This module provides the [`Notification`] enum, which categorizes incoming Electrum
//! notifications based on their method type:
//!
//! - [`Notification::Header`] for `"blockchain.headers.subscribe"`
//! - [`Notification::ScriptHash`] for `"blockchain.scripthash.subscribe"`
//! - [`Notification::SpSubscribe`] for `"blockchain.silentpayments.subscribe"`
//! - [`Notification::Unknown`] for unrecognized or unsupported methods
//!
//! Each variant wraps a struct that contains the deserialized payload for that notification type.
//! Use [`Notification::new`] to construct a typed [`Notification`] from a raw JSON-RPC
//! notification.

use vstd::prelude::*;

use crate::chain::{BlockHeader, PublicKey, Txid};
use crate::decode::{DecodeError, NotificationDecoder};
use crate::raw::cow_as_str;
use crate::response::HeadersSubscribeResp;
use crate::text;
use crate::{ElectrumScriptHash, ElectrumScriptStatus, RawNotification};

verus! {

/// A parsed Electrum server notification.
///
/// This enum represents server-initiated messages received outside the context of a request.
/// Use [`Notification::new`] to convert a raw JSON-RPC notification into a typed variant.
///
/// Known notification types are parsed into structured variants. Unknown or unsupported types are
/// preserved as-is in [`Notification::Unknown`].
#[derive(Debug, Clone)]
pub enum Notification {
    /// A notification from `"blockchain.headers.subscribe"` indicating a new best block header.
    Header(HeaderNotification),
    /// A notification from `"blockchain.scripthash.subscribe"` indicating a change in script
    /// status.
    ScriptHash(ScriptHashNotification),
    /// A notification from `"blockchain.silentpayments.subscribe"` indicating a new history
    /// of transactions.
    SpSubscribe(SpNotification),
    /// A catch-all for notifications with unrecognized methods.
    ///
    /// The [`RawNotification`] is preserved as it is for downstream inspection.
    Unknown(UnknownNotification),
}

impl Notification {
    /// Whether `parsed` is what a raw notification stands for, as far as a decoder reads it.
    ///
    /// The method name decides which type its parameters are read as. With a method name that is
    /// not recognized nothing is read, and the notification is kept as it is.
    pub open spec fn parses<D: NotificationDecoder>(
        raw: RawNotification,
        decoder: &D,
        parsed: Result<Notification, DecodeError>,
    ) -> bool {
        if raw.method@ == "blockchain.headers.subscribe"@ {
            exists|n: Result<HeaderNotification, DecodeError>|
                {
                    &&& #[trigger] call_ensures(D::header_notification, (decoder, &raw.params), n)
                    &&& parsed == (match n {
                        Ok(n) => Ok(Notification::Header(n)),
                        Err(error) => Err(error),
                    })
                }
        } else if raw.method@ == "blockchain.scripthash.subscribe"@ {
            exists|n: Result<ScriptHashNotification, DecodeError>|
                {
                    &&& #[trigger] call_ensures(
                        D::script_hash_notification,
                        (decoder, &raw.params),
                        n,
                    )
                    &&& parsed == (match n {
                        Ok(n) => Ok(Notification::ScriptHash(n)),
                        Err(error) => Err(error),
                    })
                }
        } else if raw.method@ == "blockchain.silentpayments.subscribe"@ {
            exists|n: Result<SpNotification, DecodeError>|
                {
                    &&& #[trigger] call_ensures(D::sp_notification, (decoder, &raw.params), n)
                    &&& parsed == (match n {
                        Ok(n) => Ok(Notification::SpSubscribe(n)),
                        Err(error) => Err(error),
                    })
                }
        } else {
            parsed == Ok::<Notification, DecodeError>(Notification::Unknown(raw))
        }
    }

    /// Attempts to parse a [`RawNotification`] into a typed [`Notification`] variant.
    ///
    /// Returns `Ok` with a known variant if the method is recognized, or [`Notification::Unknown`]
    /// otherwise.
    pub fn new<D: NotificationDecoder>(raw: &RawNotification, decoder: &D) -> (parsed: Result<
        Self,
        DecodeError,
    >)
        ensures
            Notification::parses(*raw, decoder, parsed),
            raw.method@ == "blockchain.headers.subscribe"@ ==> match parsed {
                Ok(notification) => {
                    &&& notification matches Notification::Header(n)
                    &&& call_ensures(D::header_notification, (decoder, &raw.params), Ok(n))
                },
                Err(error) => {
                    call_ensures(D::header_notification, (decoder, &raw.params), Err(error))
                },
            },
            raw.method@ == "blockchain.scripthash.subscribe"@ ==> match parsed {
                Ok(notification) => {
                    &&& notification matches Notification::ScriptHash(n)
                    &&& call_ensures(D::script_hash_notification, (decoder, &raw.params), Ok(n))
                },
                Err(error) => {
                    call_ensures(D::script_hash_notification, (decoder, &raw.params), Err(error))
                },
            },
            raw.method@ == "blockchain.silentpayments.subscribe"@ ==> match parsed {
                Ok(notification) => {
                    &&& notification matches Notification::SpSubscribe(n)
                    &&& call_ensures(D::sp_notification, (decoder, &raw.params), Ok(n))
                },
                Err(error) => {
                    call_ensures(D::sp_notification, (decoder, &raw.params), Err(error))
                },
            },
            raw.method@ != "blockchain.headers.subscribe"@ && raw.method@
                != "blockchain.scripthash.subscribe"@ && raw.method@
                != "blockchain.silentpayments.subscribe"@ ==> parsed == Ok::<
                Notification,
                DecodeError,
            >(
                Notification::Unknown(*raw),
            ),
    {
        proof {
            lemma_methods_differ();
        }
        let method = cow_as_str(&raw.method);
        if text::same_text(method, "blockchain.headers.subscribe") {
            let n = decoder.header_notification(&raw.params);
            assert(call_ensures(D::header_notification, (decoder, &raw.params), n));
            match n {
                Ok(n) => Ok(Notification::Header(n)),
                Err(error) => Err(error),
            }
        } else if text::same_text(method, "blockchain.scripthash.subscribe") {
            let n = decoder.script_hash_notification(&raw.params);
            assert(call_ensures(D::script_hash_notification, (decoder, &raw.params), n));
            match n {
                Ok(n) => Ok(Notification::ScriptHash(n)),
                Err(error) => Err(error),
            }
        } else if text::same_text(method, "blockchain.silentpayments.subscribe") {
            let n = decoder.sp_notification(&raw.params);
            assert(call_ensures(D::sp_notification, (decoder, &raw.params), n));
            match n {
                Ok(n) => Ok(Notification::SpSubscribe(n)),
                Err(error) => Err(error),
            }
        } else {
            Ok(Notification::Unknown(raw.clone()))
        }
    }
}

/// A notification with a method that is recognized is exactly what the decoder read from its
/// parameters as the type for that method, or the error of that reading. Every other notification
/// is kept as it came.
pub proof fn lemma_notification_is_what_was_read<D: NotificationDecoder>(
    raw: RawNotification,
    decoder: &D,
    parsed: Result<Notification, DecodeError>,
)
    requires
        Notification::parses(raw, decoder, parsed),
    ensures
        raw.method@ == "blockchain.headers.subscribe"@ ==> match parsed {
            Ok(notification) => {
                &&& notification matches Notification::Header(n)
                &&& call_ensures(D::header_notification, (decoder, &raw.params), Ok(n))
            },
            Err(error) => {
                call_ensures(D::header_notification, (decoder, &raw.params), Err(error))
            },
        },
        raw.method@ == "blockchain.scripthash.subscribe"@ ==> match parsed {
            Ok(notification) => {
                &&& notification matches Notification::ScriptHash(n)
                &&& call_ensures(D::script_hash_notification, (decoder, &raw.params), Ok(n))
            },
            Err(error) => {
                call_ensures(D::script_hash_notification, (decoder, &raw.params), Err(error))
            },
        },
        raw.method@ == "blockchain.silentpayments.subscribe"@ ==> match parsed {
            Ok(notification) => {
                &&& notification matches Notification::SpSubscribe(n)
                &&& call_ensures(D::sp_notification, (decoder, &raw.params), Ok(n))
            },
            Err(error) => {
                call_ensures(D::sp_notification, (decoder, &raw.params), Err(error))
            },
        },
        raw.method@ != "blockchain.headers.subscribe"@ && raw.method@
            != "blockchain.scripthash.subscribe"@ && raw.method@
            != "blockchain.silentpayments.subscribe"@ ==> parsed == Ok::<
            Notification,
            DecodeError,
        >(
            Notification::Unknown(raw),
        ),
{
    lemma_methods_differ();
}

proof fn lemma_methods_differ()
    ensures
        "blockchain.headers.subscribe"@ != "blockchain.scripthash.subscribe"@,
        "blockchain.headers.subscribe"@ != "blockchain.silentpayments.subscribe"@,
        "blockchain.scripthash.subscribe"@ != "blockchain.silentpayments.subscribe"@,
{
    reveal_strlit("blockchain.headers.subscribe");
    reveal_strlit("blockchain.scripthash.subscribe");
    reveal_strlit("blockchain.silentpayments.subscribe");
    assert("blockchain.headers.subscribe"@.len() == 28);
    assert("blockchain.scripthash.subscribe"@.len() == 31);
    assert("blockchain.silentpayments.subscribe"@.len() == 35);
}

/// A type alias for unrecognized Electrum notifications.
///
/// Used when the method name is not handled explicitly by the client. The raw JSON-RPC
/// notification is preserved without interpretation.
pub type UnknownNotification = RawNotification;

/// A notification indicating the current best block header on the chain tip.
///
/// Corresponds to the `"blockchain.headers.subscribe"` Electrum notification method.
#[derive(Debug, Clone, Copy, PartialEq, Eq)]
pub struct HeaderNotification {
    param_0: HeadersSubscribeResp,
}

impl HeaderNotification {
    /// The header and its height, as the server sent them.
    pub closed spec fn tip(self) -> HeadersSubscribeResp {
        self.param_0
    }

    /// A notification of this new tip.
    pub fn new(tip: HeadersSubscribeResp) -> (notification: Self)
        ensures
            notification.tip() == tip,
    {
        HeaderNotification { param_0: tip }
    }

    /// Returns the height of the new best block.
    pub fn height(&self) -> (height: u32)
        ensures
            height == self.tip().height,
    {
        self.param_0.height
    }

    /// Returns a reference to the new best block header.
    pub fn header(&self) -> (header: &BlockHeader)
        ensures
            *header == self.tip().header,
    {
        &self.param_0.header
    }
}

/// A notification indicating a change in the status of a specific script hash.
///
/// Corresponds to the `"blockchain.scripthash.subscribe"` Electrum notification method.
#[derive(Debug, Clone, Copy, PartialEq, Eq)]
pub struct ScriptHashNotification {
    param_0: ElectrumScriptHash,
    param_1: Option<ElectrumScriptStatus>,
}

impl ScriptHashNotification {
    /// The script hash and its new status, as the server sent them.
    pub closed spec fn change(self) -> (ElectrumScriptHash, Option<ElectrumScriptStatus>) {
        (self.param_0, self.param_1)
    }

    /// A notification of this change.
    pub fn new(
        script_hash: ElectrumScriptHash,
        script_status: Option<ElectrumScriptStatus>,
    ) -> (notification: Self)
        ensures
            notification.change() == (script_hash, script_status),
    {
        ScriptHashNotification { param_0: script_hash, param_1: script_status }
    }

    /// Returns the script hash associated with the notification.
    pub fn script_hash(&self) -> (script_hash: ElectrumScriptHash)
        ensures
            script_hash == self.change().0,
    {
        self.param_0
    }

    /// Returns the new script status associated with the script hash.
    pub fn script_status(&self) -> (script_status: Option<ElectrumScriptStatus>)
        ensures
            script_status == self.change().1,
    {
        self.param_1
    }
}

/// The subscription that a silent payment notification belongs to.
#[derive(Debug, Clone, PartialEq, Eq)]
pub struct SpSubscription {
    pub address: String,
    pub labels: Vec<u32>,
    pub start_height: u32,
}

/// A transaction with the tweak by which its silent payment outputs are found.
#[derive(Debug, Clone, Copy, PartialEq, Eq)]
pub struct TxTweak {
    pub height: u32,
    pub tx_hash: Txid,
    pub tweak_key: PublicKey,
}

/// A notification indicating new confirmed transactions.
///
/// Corresponds to `"blockchain.silentpayments.subscribe"` Frigate Electrum notification method.
#[derive(Debug, Clone, PartialEq, Eq)]
pub struct SpNotification {
    pub subscription: SpSubscription,
    /// How much of the chain has been scanned: the bits of a single precision number.
    pub progress_bits: u32,
    pub history: Vec<TxTweak>,
}

} // verus!

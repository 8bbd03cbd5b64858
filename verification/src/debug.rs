//! How keys, hashes and headers show themselves.
//!
//! Each shows itself as the type of the `bitcoin` crate that it stands for. So a hash is one
//! hexadecimal number, and a secret key does not show its bytes.

use bitcoin::block;
use bitcoin::hashes::{sha256d, Hash as _};
use bitcoin::hex::DisplayHex;
use bitcoin::secp256k1;
use bitcoin::CompactTarget;
use std::fmt::{Debug, Display, Formatter};
use vstd::prelude::*;

use crate::chain::{BlockHeader, DoubleSHA, PublicKey, SecretKey, Txid};
use crate::{ElectrumScriptHash, ElectrumScriptStatus};

verus! {

/// Declares `std::fmt::Formatter`, which is only handed on.
#[verifier::external_type_specification]
#[verifier::external_body]
pub struct ExFormatter<'a>(std::fmt::Formatter<'a>);

/// Declares `std::fmt::Error`, which is only handed on.
#[verifier::external_type_specification]
#[verifier::external_body]
pub struct ExFmtError(std::fmt::Error);

impl Debug for SecretKey {
    /// The `Debug` of a `bitcoin::secp256k1::SecretKey`, which shows a short hash of the key, or of
    /// the error where the bytes are no key. Nothing is claimed of it.
    #[verifier::external_body]
    fn fmt(&self, f: &mut Formatter<'_>) -> std::fmt::Result {
        match secp256k1::SecretKey::from_slice(&self.bytes) {
            Ok(key) => Debug::fmt(&key, f),
            Err(error) => Debug::fmt(&error, f),
        }
    }
}

impl Debug for PublicKey {
    /// The `Debug` of a `bitcoin::secp256k1::PublicKey`, or of the error where the bytes are no
    /// key. Nothing is claimed of it.
    #[verifier::external_body]
    fn fmt(&self, f: &mut Formatter<'_>) -> std::fmt::Result {
        match secp256k1::PublicKey::from_slice(&self.bytes) {
            Ok(key) => Debug::fmt(&key, f),
            Err(error) => Debug::fmt(&error, f),
        }
    }
}

impl Debug for Txid {
    /// The `Debug` of a `bitcoin::Txid`. Nothing is claimed of it.
    #[verifier::external_body]
    fn fmt(&self, f: &mut Formatter<'_>) -> std::fmt::Result {
        Debug::fmt(&bitcoin::Txid::from_byte_array(self.bytes), f)
    }
}

impl Debug for DoubleSHA {
    /// The `Debug` of a `bitcoin::hashes::sha256d::Hash`. Nothing is claimed of it.
    #[verifier::external_body]
    fn fmt(&self, f: &mut Formatter<'_>) -> std::fmt::Result {
        Debug::fmt(&sha256d::Hash::from_byte_array(self.bytes), f)
    }
}

impl Debug for ElectrumScriptHash {
    /// The `Debug` of a `bitcoin::Txid` of these bytes, which shows the last byte first, as the
    /// script hash stands in messages. Nothing is claimed of it.
    #[verifier::external_body]
    fn fmt(&self, f: &mut Formatter<'_>) -> std::fmt::Result {
        Debug::fmt(&bitcoin::Txid::from_byte_array(self.bytes), f)
    }
}

impl Debug for ElectrumScriptStatus {
    /// The `Display` of what `bitcoin::hex::DisplayHex::as_hex` gives of the bytes. Nothing is
    /// claimed of it.
    #[verifier::external_body]
    fn fmt(&self, f: &mut Formatter<'_>) -> std::fmt::Result {
        Display::fmt(&self.bytes.as_hex(), f)
    }
}

impl Debug for BlockHeader {
    /// The `Debug` of a `bitcoin::block::Header` with the same fields. Nothing is claimed of it.
    #[verifier::external_body]
    fn fmt(&self, f: &mut Formatter<'_>) -> std::fmt::Result {
        let header = block::Header {
            version: block::Version::from_consensus(self.version),
            prev_blockhash: bitcoin::BlockHash::from_byte_array(self.prev_blockhash),
            merkle_root: bitcoin::TxMerkleNode::from_byte_array(self.merkle_root),
            time: self.time,
            bits: CompactTarget::from_consensus(self.bits),
            nonce: self.nonce,
        };
        Debug::fmt(&header, f)
    }
}

} // verus!

//! The hashes that identify scripts and their state on an Electrum server.

use vstd::prelude::*;

use crate::text;

verus! {

/// The SHA-256 digest of some bytes.
pub uninterp spec fn sha256_digest(data: Seq<u8>) -> Seq<u8>;

/// The SHA-256 digest of some bytes: `bitcoin::hashes::sha256::Hash::hash`, as a byte array.
///
/// The digest depends on the bytes alone.
#[verifier::external_body]
fn sha256(data: &[u8]) -> (digest: [u8; 32])
    ensures
        digest@ == sha256_digest(data@),
{
    let hash = <bitcoin::hashes::sha256::Hash as bitcoin::hashes::Hash>::hash(data);
    bitcoin::hashes::Hash::to_byte_array(hash)
}

/// The bytes of a hash, last byte first.
fn reversed(bytes: &[u8; 32]) -> (reversed: Vec<u8>)
    ensures
        reversed@ == bytes@.reverse(),
{
    let mut reversed: Vec<u8> = Vec::new();
    let mut i: usize = 32;
    while i > 0
        invariant
            i <= 32,
            bytes@.len() == 32,
            reversed@.len() == 32 - i,
            forall|k: int| 0 <= k < 32 - i ==> reversed@[k] == bytes@[31 - k],
        decreases i,
    {
        i = i - 1;
        reversed.push(bytes[i]);
    }
    assert(reversed@ =~= bytes@.reverse());
    reversed
}

/// The hash by which an Electrum server identifies a script: the SHA-256 digest of the script,
/// written in reverse byte order.
#[derive(Clone, Copy, PartialEq, Eq, Hash)]
pub struct ElectrumScriptHash {
    /// The digest, in the order in which SHA-256 gives it.
    pub bytes: [u8; 32],
}

impl ElectrumScriptHash {
    /// Hashes the bytes of a script.
    pub fn new(script: &[u8]) -> (hash: Self)
        ensures
            hash.bytes@ == sha256_digest(script@),
    {
        ElectrumScriptHash { bytes: sha256(script) }
    }

    /// The hash whose digest is written in messages as these bytes.
    pub fn from_reversed(bytes: &[u8; 32]) -> (hash: Self)
        ensures
            hash.bytes@ == bytes@.reverse(),
            hash.hex() == text::lower_hex(bytes@),
    {
        let mut digest: [u8; 32] = [0; 32];
        let mut i: usize = 0;
        while i < 32
            invariant
                i <= 32,
                forall|k: int| 0 <= k < i ==> digest@[k] == bytes@[31 - k],
            decreases 32 - i,
        {
            digest[i] = bytes[31 - i];
            i = i + 1;
        }
        assert(digest@ =~= bytes@.reverse());
        assert(digest@.reverse() =~= bytes@);
        ElectrumScriptHash { bytes: digest }
    }

    /// How the hash is written in messages.
    pub open spec fn hex(self) -> Seq<char> {
        text::lower_hex(self.bytes@.reverse())
    }

    /// Writes the hash as it stands in messages.
    pub fn to_hex(&self) -> (hex: String)
        ensures
            hex@ == self.hex(),
            hex@ == text::lower_hex(self.bytes@.reverse()),
    {
        text::to_lower_hex(reversed(&self.bytes).as_slice())
    }
}

/// The hash by which an Electrum server sums up the history of a script.
#[derive(Clone, Copy, PartialEq, Eq, Hash)]
pub struct ElectrumScriptStatus {
    pub bytes: [u8; 32],
}

} // verus!

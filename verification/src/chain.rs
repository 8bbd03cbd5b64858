//! The parts of the block chain that requests and responses speak of.

use bitcoin::absolute::LockTime;
use bitcoin::consensus::serialize;
use bitcoin::hashes;
use bitcoin::transaction::Version;
use bitcoin::{Amount, OutPoint, Sequence, Witness};
use std::fmt::{Debug, Formatter};
use vstd::prelude::*;

use crate::text;

verus! {

/// A transaction ID.
#[derive(Clone, Copy, PartialEq, Eq, Hash)]
pub struct Txid {
    /// The double SHA-256 digest, in the order in which SHA-256 gives it.
    pub bytes: [u8; 32],
}

/// Writes a transaction ID: the `Display` of a `bitcoin::Txid` made from its bytes.
///
/// The bytes come out last byte first, in lower-case hexadecimal notation.
#[verifier::external_body]
fn txid_to_string(bytes: [u8; 32]) -> (hex: String)
    ensures
        hex@ == text::lower_hex(bytes@.reverse()),
{
    <bitcoin::Txid as hashes::Hash>::from_byte_array(bytes).to_string()
}

impl Txid {
    /// How the ID is written in messages.
    pub open spec fn hex(self) -> Seq<char> {
        text::lower_hex(self.bytes@.reverse())
    }

    /// Writes the ID as it stands in messages.
    pub fn to_hex(&self) -> (hex: String)
        ensures
            hex@ == self.hex(),
            hex@ == text::lower_hex(self.bytes@.reverse()),
    {
        txid_to_string(self.bytes)
    }
}

/// A double SHA256 hash (`sha256d`) used for Merkle branches and header proofs.
#[derive(Clone, Copy, PartialEq, Eq, Hash)]
pub struct DoubleSHA {
    pub bytes: [u8; 32],
}

/// The header of a block.
#[derive(Clone, Copy, PartialEq, Eq, Hash)]
pub struct BlockHeader {
    /// The version bits.
    pub version: i32,
    /// The hash of the block before, in the order in which SHA-256 gives it.
    pub prev_blockhash: [u8; 32],
    /// The root of the Merkle tree of transactions, in the order in which SHA-256 gives it.
    pub merkle_root: [u8; 32],
    /// The time stamp, in seconds.
    pub time: u32,
    /// The target, in its compact form.
    pub bits: u32,
    /// The nonce.
    pub nonce: u32,
}

/// A secret key on the secp256k1 curve.
#[derive(Clone, Copy, PartialEq, Eq)]
pub struct SecretKey {
    pub bytes: [u8; 32],
}

impl SecretKey {
    /// Writes the key as it stands in messages.
    pub fn to_hex(&self) -> (hex: String)
        ensures
            hex@ == text::lower_hex(self.bytes@),
    {
        text::to_lower_hex(self.bytes.as_slice())
    }
}

/// A public key on the secp256k1 curve, in compressed form.
#[derive(Clone, Copy, PartialEq, Eq)]
pub struct PublicKey {
    pub bytes: [u8; 33],
}

impl PublicKey {
    /// Writes the key as it stands in messages.
    pub fn to_hex(&self) -> (hex: String)
        ensures
            hex@ == text::lower_hex(self.bytes@),
    {
        text::to_lower_hex(self.bytes.as_slice())
    }
}

/// An input of a transaction.
#[derive(Debug, PartialEq, Eq, Hash)]
pub struct TxIn {
    /// The transaction whose output is spent.
    pub txid: Txid,
    /// The index of the output that is spent.
    pub vout: u32,
    pub script_sig: Vec<u8>,
    pub sequence: u32,
    pub witness: Vec<Vec<u8>>,
}

/// An output of a transaction.
#[derive(Debug, PartialEq, Eq, Hash)]
pub struct TxOut {
    /// The value, in satoshis.
    pub value: u64,
    pub script_pubkey: Vec<u8>,
}

/// What a [`TxIn`] holds.
pub struct TxInView {
    pub txid: Seq<u8>,
    pub vout: u32,
    pub script_sig: Seq<u8>,
    pub sequence: u32,
    pub witness: Seq<Seq<u8>>,
}

/// What a [`TxOut`] holds.
pub struct TxOutView {
    pub value: u64,
    pub script_pubkey: Seq<u8>,
}

/// What a [`Transaction`] holds.
pub struct TransactionView {
    pub version: i32,
    pub lock_time: u32,
    pub input: Seq<TxInView>,
    pub output: Seq<TxOutView>,
}

impl View for TxIn {
    type V = TxInView;

    open spec fn view(&self) -> TxInView {
        TxInView {
            txid: self.txid.bytes@,
            vout: self.vout,
            script_sig: self.script_sig@,
            sequence: self.sequence,
            witness: self.witness@.map_values(|element: Vec<u8>| element@),
        }
    }
}

impl View for TxOut {
    type V = TxOutView;

    open spec fn view(&self) -> TxOutView {
        TxOutView { value: self.value, script_pubkey: self.script_pubkey@ }
    }
}

/// Copies a list of byte strings.
fn clone_elements(elements: &Vec<Vec<u8>>) -> (copy: Vec<Vec<u8>>)
    ensures
        copy@.map_values(|element: Vec<u8>| element@) == elements@.map_values(
            |element: Vec<u8>| element@,
        ),
        copy@.len() == elements@.len(),
        forall|k: int| 0 <= k < elements@.len() ==> (#[trigger] copy@[k])@ == elements@[k]@,
{
    let mut copy: Vec<Vec<u8>> = Vec::new();
    let mut i: usize = 0;
    while i < elements.len()
        invariant
            i <= elements@.len(),
            copy@.len() == i,
            forall|k: int| 0 <= k < i ==> (#[trigger] copy@[k])@ == elements@[k]@,
        decreases elements@.len() - i,
    {
        copy.push(clone_bytes(&elements[i]));
        i = i + 1;
    }
    assert(copy@.map_values(|element: Vec<u8>| element@) =~= elements@.map_values(
        |element: Vec<u8>| element@,
    ));
    copy
}

fn clone_bytes(bytes: &Vec<u8>) -> (copy: Vec<u8>)
    ensures
        copy@ == bytes@,
{
    let copy = bytes.clone();
    assert(copy@ =~= bytes@);
    copy
}

impl Clone for TxIn {
    fn clone(&self) -> (copy: Self)
        ensures
            copy@ == self@,
            copy.txid == self.txid,
            copy.vout == self.vout,
            copy.script_sig@ == self.script_sig@,
            copy.sequence == self.sequence,
            copy.witness@.len() == self.witness@.len(),
            forall|k: int|
                0 <= k < self.witness@.len() ==> (#[trigger] copy.witness@[k])@
                    == self.witness@[k]@,
    {
        TxIn {
            txid: self.txid,
            vout: self.vout,
            script_sig: clone_bytes(&self.script_sig),
            sequence: self.sequence,
            witness: clone_elements(&self.witness),
        }
    }
}

impl Clone for TxOut {
    fn clone(&self) -> (copy: Self)
        ensures
            copy@ == self@,
            copy.value == self.value,
            copy.script_pubkey@ == self.script_pubkey@,
    {
        TxOut { value: self.value, script_pubkey: clone_bytes(&self.script_pubkey) }
    }
}

/// An input holds the output that it spends, its script, its sequence number and every element of
/// its witness.
pub proof fn lemma_tx_in_parts(input: TxIn)
    ensures
        input@.txid == input.txid.bytes@,
        input@.vout == input.vout,
        input@.script_sig == input.script_sig@,
        input@.sequence == input.sequence,
        input@.witness.len() == input.witness@.len(),
        forall|k: int|
            0 <= k < input.witness@.len() ==> #[trigger] input@.witness[k] == input.witness@[k]@,
{
}

/// An output holds its value and its script.
pub proof fn lemma_tx_out_parts(output: TxOut)
    ensures
        output@.value == output.value,
        output@.script_pubkey == output.script_pubkey@,
{
}

/// How many bytes a length takes in front of what it counts.
pub open spec fn var_int_size(n: nat) -> nat {
    if n <= 0xFC {
        1
    } else if n <= 0xFFFF {
        3
    } else if n <= 0xFFFF_FFFF {
        5
    } else {
        9
    }
}

/// Where the element with this index starts in the encoding of a witness.
pub open spec fn witness_offset(witness: Seq<Seq<u8>>, index: nat) -> nat
    decreases index,
{
    if index == 0 {
        0
    } else {
        let len = witness[index - 1].len();
        witness_offset(witness, (index - 1) as nat) + len + var_int_size(len)
    }
}

/// Whether every element of a witness starts at an offset that 32 bits hold.
pub open spec fn witness_fits(witness: Seq<Seq<u8>>) -> bool {
    witness.len() > 0 ==> witness_offset(witness, (witness.len() - 1) as nat) <= u32::MAX
}

/// Whether the witness of every input fits.
pub open spec fn witnesses_fit(input: Seq<TxInView>) -> bool {
    forall|i: int| 0 <= i < input.len() ==> witness_fits(#[trigger] input[i].witness)
}

/// The first element of a witness starts at the start, and each next one after the element before
/// and the length in front of it, which takes one byte, or three, five or nine where one, two or
/// four bytes behind a mark do not hold it.
pub proof fn lemma_witness_offsets(witness: Seq<Seq<u8>>, k: nat)
    ensures
        witness_offset(witness, 0) == 0,
        ({
            let len = witness[k as int].len();
            let size = witness_offset(witness, k + 1) - witness_offset(witness, k) - len;
            &&& len <= 252 ==> size == 1
            &&& 252 < len < 0x1_0000 ==> size == 3
            &&& 0x1_0000 <= len < 0x1_0000_0000 ==> size == 5
            &&& 0x1_0000_0000 <= len ==> size == 9
        }),
{
}

/// The witness of every input fits exactly where the last element of each, if it has one, starts at
/// an offset that 32 bits hold.
pub proof fn lemma_witnesses_that_fit(input: Seq<TxInView>)
    ensures
        witnesses_fit(input) <==> forall|i: int|
            #![trigger input[i]]
            0 <= i < input.len() && input[i].witness.len() > 0 ==> witness_offset(
                input[i].witness,
                (input[i].witness.len() - 1) as nat,
            ) <= 0xFFFF_FFFF,
{
    if forall|i: int|
        #![trigger input[i]]
        0 <= i < input.len() && input[i].witness.len() > 0 ==> witness_offset(
            input[i].witness,
            (input[i].witness.len() - 1) as nat,
        ) <= 0xFFFF_FFFF {
        assert(witnesses_fit(input));
    }
    if witnesses_fit(input) {
        assert forall|i: int|
            #![trigger input[i]]
            0 <= i < input.len() && input[i].witness.len() > 0 implies witness_offset(
            input[i].witness,
            (input[i].witness.len() - 1) as nat,
        ) <= 0xFFFF_FFFF by {
            assert(witness_fits(input[i].witness));
        }
    }
}

proof fn lemma_witness_offset_monotonic(witness: Seq<Seq<u8>>, i: nat, j: nat)
    requires
        i <= j,
    ensures
        witness_offset(witness, i) <= witness_offset(witness, j),
    decreases j,
{
    if i < j {
        lemma_witness_offset_monotonic(witness, i, (j - 1) as nat);
    }
}

fn check_witness(witness: &Vec<Vec<u8>>) -> (fits: bool)
    ensures
        fits == witness_fits(witness@.map_values(|element: Vec<u8>| element@)),
{
    let ghost w = witness@.map_values(|element: Vec<u8>| element@);
    if witness.len() == 0 {
        return true;
    }
    let mut offset: u64 = 0;
    let mut i: usize = 0;
    while i < witness.len() - 1
        invariant
            w == witness@.map_values(|element: Vec<u8>| element@),
            i <= witness@.len() - 1,
            offset == witness_offset(w, i as nat),
            offset <= u32::MAX,
        decreases witness@.len() - i,
    {
        assert(w[i as int] == witness@[i as int]@);
        let len: u64 = witness[i].len() as u64;
        proof {
            lemma_witness_offset_monotonic(w, (i + 1) as nat, (w.len() - 1) as nat);
        }
        if len > 0xFFFF_FFFF {
            return false;
        }
        let prefix: u64 = if len <= 0xFC {
            1
        } else if len <= 0xFFFF {
            3
        } else {
            5
        };
        offset = offset + len + prefix;
        i = i + 1;
        assert(offset == witness_offset(w, i as nat));
        if offset > 0xFFFF_FFFF {
            return false;
        }
    }
    true
}

/// A transaction.
///
/// The elements of each witness start at offsets that 32 bits hold.
#[derive(PartialEq, Eq, Hash)]
pub struct Transaction {
    version: i32,
    lock_time: u32,
    input: Vec<TxIn>,
    output: Vec<TxOut>,
}

impl View for Transaction {
    type V = TransactionView;

    closed spec fn view(&self) -> TransactionView {
        TransactionView {
            version: self.version,
            lock_time: self.lock_time,
            input: self.input@.map_values(|i: TxIn| i@),
            output: self.output@.map_values(|o: TxOut| o@),
        }
    }
}

impl Clone for Transaction {
    fn clone(&self) -> (copy: Self)
        ensures
            copy@ == self@,
    {
        proof {
            use_type_invariant(self);
        }
        let input = self.input.clone();
        let output = self.output.clone();
        assert(input@.map_values(|i: TxIn| i@) =~= self.input@.map_values(|i: TxIn| i@));
        assert(output@.map_values(|o: TxOut| o@) =~= self.output@.map_values(|o: TxOut| o@));
        Transaction { version: self.version, lock_time: self.lock_time, input, output }
    }
}

/// The consensus encoding of a transaction.
pub uninterp spec fn consensus_encoding(tx: TransactionView) -> Seq<u8>;

/// Encodes a transaction: `bitcoin::consensus::serialize` of a `bitcoin::Transaction` with the
/// same fields.
///
/// The encoding depends on the fields alone. Building a `bitcoin::Witness` gives up where an
/// element starts at an offset above `u32::MAX`, so no witness may reach that far.
#[verifier::external_body]
fn serialize_transaction(tx: &Transaction) -> (bytes: Vec<u8>)
    requires
        witnesses_fit(tx@.input),
    ensures
        bytes@ == consensus_encoding(tx@),
{
    let input = |i: &TxIn| bitcoin::TxIn {
        previous_output: OutPoint::new(hashes::Hash::from_byte_array(i.txid.bytes), i.vout),
        script_sig: i.script_sig.clone().into(),
        sequence: Sequence(i.sequence),
        witness: Witness::from_slice(&i.witness),
    };
    let output = |o: &TxOut| {
        let script_pubkey = o.script_pubkey.clone().into();
        bitcoin::TxOut { value: Amount::from_sat(o.value), script_pubkey }
    };
    let (version, lock_time) = (Version(tx.version), LockTime::from_consensus(tx.lock_time));
    let input = tx.input.iter().map(input).collect();
    let output = tx.output.iter().map(output).collect();
    serialize(&bitcoin::Transaction { version, lock_time, input, output })
}

impl Debug for Transaction {
    /// The `Debug` of a `bitcoin::Transaction` with the same fields. Nothing is claimed of it. The
    /// elements of each witness start where a `bitcoin::Witness` can hold them.
    #[verifier::external_body]
    fn fmt(&self, f: &mut Formatter<'_>) -> std::fmt::Result {
        let input = |i: &TxIn| bitcoin::TxIn {
            previous_output: OutPoint::new(hashes::Hash::from_byte_array(i.txid.bytes), i.vout),
            script_sig: i.script_sig.clone().into(),
            sequence: Sequence(i.sequence),
            witness: Witness::from_slice(&i.witness),
        };
        let output = |o: &TxOut| bitcoin::TxOut {
            value: Amount::from_sat(o.value), script_pubkey: o.script_pubkey.clone().into(),
        };
        Debug::fmt(&bitcoin::Transaction {
            version: Version(self.version),
            lock_time: LockTime::from_consensus(self.lock_time),
            input: self.input.iter().map(input).collect(),
            output: self.output.iter().map(output).collect(),
        }, f)
    }
}

impl Transaction {
    #[verifier::type_invariant]
    closed spec fn wf(&self) -> bool {
        witnesses_fit(self@.input)
    }

    /// A transaction of these parts, or `None` where a witness is too long to index.
    pub fn new(version: i32, lock_time: u32, input: Vec<TxIn>, output: Vec<TxOut>) -> (tx: Option<
        Self,
    >)
        ensures
            tx is Some <==> witnesses_fit(input@.map_values(|i: TxIn| i@)),
            tx matches Some(t) ==> t@ == (TransactionView {
                version,
                lock_time,
                input: input@.map_values(|i: TxIn| i@),
                output: output@.map_values(|o: TxOut| o@),
            }),
    {
        let ghost views = input@.map_values(|i: TxIn| i@);
        let mut i: usize = 0;
        while i < input.len()
            invariant
                i <= input@.len(),
                views == input@.map_values(|i: TxIn| i@),
                forall|k: int| 0 <= k < i ==> witness_fits(#[trigger] views[k].witness),
            decreases input@.len() - i,
        {
            assert(views[i as int] == input@[i as int]@);
            if !check_witness(&input[i].witness) {
                assert(!witness_fits(views[i as int].witness));
                return None;
            }
            i = i + 1;
        }
        Some(Transaction { version, lock_time, input, output })
    }

    /// Returns the version.
    pub fn version(&self) -> (version: i32)
        ensures
            version == self@.version,
    {
        self.version
    }

    /// Returns the lock time, as it stands in the encoding.
    pub fn lock_time(&self) -> (lock_time: u32)
        ensures
            lock_time == self@.lock_time,
    {
        self.lock_time
    }

    /// Returns the inputs.
    pub fn input(&self) -> (input: &[TxIn])
        ensures
            input@.map_values(|i: TxIn| i@) == self@.input,
    {
        self.input.as_slice()
    }

    /// Returns the outputs.
    pub fn output(&self) -> (output: &[TxOut])
        ensures
            output@.map_values(|o: TxOut| o@) == self@.output,
    {
        self.output.as_slice()
    }

    /// Encodes the transaction for the network.
    pub fn consensus_encode(&self) -> (bytes: Vec<u8>)
        ensures
            bytes@ == consensus_encoding(self@),
    {
        proof {
            use_type_invariant(self);
        }
        serialize_transaction(self)
    }
}

} // verus!

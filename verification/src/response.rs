//! Types representing structured responses returned by the Electrum server.

use vstd::prelude::*;

use crate::chain::{BlockHeader, DoubleSHA, Transaction, Txid};

verus! {

/// Response to the `"blockchain.block.header"` method, without a proof.
#[derive(Debug, Clone, Copy, PartialEq, Eq)]
pub struct HeaderResp {
    /// The block header at the requested height.
    pub header: BlockHeader,
}

/// Response to the `"blockchain.block.header"` method, with a proof to a checkpoint.
#[derive(Debug, Clone, PartialEq, Eq)]
pub struct HeaderWithProofResp {
    /// The Merkle branch that connects the header to the root at the checkpoint.
    pub branch: Vec<DoubleSHA>,
    /// The block header at the requested height.
    pub header: BlockHeader,
    /// The Merkle root of all headers up to the checkpoint.
    pub root: DoubleSHA,
}

/// Response to the `"blockchain.block.headers"` method, without a proof.
#[derive(Debug, Clone, PartialEq, Eq)]
pub struct HeadersResp {
    /// The number of headers returned.
    pub count: usize,
    /// The headers, in order of their heights.
    pub headers: Vec<BlockHeader>,
    /// The largest number of headers that the server returns at once.
    pub max: usize,
}

/// Response to the `"blockchain.block.headers"` method, with a proof to a checkpoint.
#[derive(Debug, Clone, PartialEq, Eq)]
pub struct HeadersWithCheckpointResp {
    /// The number of headers returned.
    pub count: usize,
    /// The headers, in order of their heights.
    pub headers: Vec<BlockHeader>,
    /// The largest number of headers that the server returns at once.
    pub max: usize,
    /// The Merkle root of all headers up to the checkpoint.
    pub root: DoubleSHA,
    /// The Merkle branch that connects the last header to the root.
    pub branch: Vec<DoubleSHA>,
}

/// Response to the `"blockchain.estimatefee"` method.
#[derive(Debug, Clone, Copy, PartialEq, Eq)]
pub struct EstimateFeeResp {
    /// The fee rate in satoshis per 1000 weight units, if the server has an estimate.
    pub sat_per_kwu: Option<u64>,
}

impl EstimateFeeResp {
    /// A fee rate that the server gave in satoshis per 1000 virtual bytes, rounded down.
    pub fn from_sat_per_kvb(sat_per_kvb: Option<u64>) -> (resp: Self)
        ensures
            resp.sat_per_kwu == (match sat_per_kvb {
                Some(rate) => Some(rate / 4),
                None => None,
            }),
    {
        EstimateFeeResp {
            sat_per_kwu: match sat_per_kvb {
                Some(rate) => Some(rate / 4),
                None => None,
            },
        }
    }
}

/// Response to the `"blockchain.headers.subscribe"` method.
#[derive(Debug, Clone, Copy, PartialEq, Eq)]
pub struct HeadersSubscribeResp {
    /// The header of the block at the tip of the chain.
    pub header: BlockHeader,
    /// The height of that block.
    pub height: u32,
}

/// Response to the `"server.relayfee"` method.
#[derive(Debug, Clone, Copy, PartialEq, Eq)]
pub struct RelayFeeResp {
    /// The fee in satoshis per kilobyte.
    pub fee: u64,
}

/// Response to the `"blockchain.scripthash.get_balance"` method.
#[derive(Debug, Clone, Copy, PartialEq, Eq)]
pub struct GetBalanceResp {
    /// The confirmed balance in satoshis.
    pub confirmed: u64,
    /// The unconfirmed balance in satoshis, which may be negative.
    pub unconfirmed: i64,
}

/// A transaction of the history of a script.
#[derive(Debug, Clone, Copy, PartialEq, Eq)]
pub enum Tx {
    /// A transaction that is not in a block yet.
    Mempool(MempoolTx),
    /// A transaction in a block.
    Confirmed(ConfirmedTx),
}

/// A transaction in a block.
#[derive(Debug, Clone, Copy, PartialEq, Eq)]
pub struct ConfirmedTx {
    pub txid: Txid,
    /// The height of the block.
    pub height: u32,
}

/// A transaction that is not in a block yet.
#[derive(Debug, Clone, Copy, PartialEq, Eq)]
pub struct MempoolTx {
    pub txid: Txid,
    /// The fee in satoshis.
    pub fee: u64,
    /// Whether all inputs are confirmed.
    pub confirmed_inputs: bool,
}

impl MempoolTx {
    /// A transaction with the height that the server gave: zero where all inputs are confirmed.
    pub fn from_height(txid: Txid, fee: u64, height: i64) -> (tx: Self)
        ensures
            tx == (MempoolTx { txid, fee, confirmed_inputs: height == 0 }),
    {
        MempoolTx { txid, fee, confirmed_inputs: height == 0 }
    }
}

/// An unspent output.
#[derive(Debug, Clone, Copy, PartialEq, Eq)]
pub struct Utxo {
    /// The height of the block that holds the output; zero where there is none yet.
    pub height: u32,
    /// The index of the output in its transaction.
    pub tx_pos: usize,
    pub txid: Txid,
    /// The value in satoshis.
    pub value: u64,
}

/// Response to the `"blockchain.transaction.get"` method.
#[derive(Debug, Clone, PartialEq, Eq)]
pub struct FullTx {
    pub tx: Transaction,
}

/// Response to the `"blockchain.transaction.get_merkle"` method.
#[derive(Debug, Clone, PartialEq, Eq)]
pub struct TxMerkle {
    /// The height of the block that holds the transaction.
    pub block_height: u32,
    /// The Merkle branch that connects the transaction to the root of the block.
    pub merkle: Vec<DoubleSHA>,
    /// The position of the transaction in the block.
    pub pos: usize,
}

/// Response to the `"blockchain.transaction.id_from_pos"` method.
#[derive(Debug, Clone, Copy, PartialEq, Eq)]
pub struct TxidFromPos {
    pub txid: Txid,
}

/// One step of the fee histogram of the mempool.
#[derive(Debug, Clone, Copy, PartialEq, Eq)]
pub struct FeePair {
    /// The fee rate in satoshis per 1000 weight units.
    pub sat_per_kwu: u64,
    /// The weight, in weight units, of the transactions at this fee rate.
    pub weight: u64,
}

/// Response to the `"server.features"` method.
#[derive(Debug, Clone, PartialEq, Eq)]
pub struct ServerFeatures {
    /// The hash of the first block, in the order in which SHA-256 gives it.
    pub genesis_hash: [u8; 32],
    /// The hash function by which the server identifies scripts.
    pub hash_function: String,
    /// The name and version of the server.
    pub server_version: String,
    /// The newest protocol version that the server speaks.
    pub protocol_max: String,
    /// The oldest protocol version that the server speaks.
    pub protocol_min: String,
    /// The pruning limit, if the server prunes.
    pub pruning: Option<u32>,
}

} // verus!

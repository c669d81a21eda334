//! The decoded shapes of the two inbound webhook families: asset transfers
//! and NFT transfers. Each mirrors the JSON envelope the upstream indexing
//! provider posts; the transport layer decodes the raw body into these values
//! before the pipeline runs.

use vstd::prelude::*;

verus! {

/// An asset-transfer webhook envelope.
#[derive(Debug, Clone)]
pub struct WebhookAddress {
    pub webhook_id: String,
    pub id: String,
    pub created_at: String,
    pub type_field: String,
    pub event: EventAddress,
}

/// The event body of an asset-transfer webhook.
#[derive(Debug, Clone)]
pub struct EventAddress {
    pub network: String,
    pub activity: Vec<ActivityAddress>,
}

/// One asset-transfer activity item. The numeric amount arrives already
/// rendered as text by the transport layer; the relay forwards it verbatim
/// and never interprets it.
#[derive(Debug, Clone)]
pub struct ActivityAddress {
    pub from_address: String,
    pub to_address: String,
    pub block_num: String,
    pub hash: String,
    pub value: Option<String>,
    pub asset: Option<String>,
    pub category: String,
    pub raw_contract: RawContract,
    pub log: Option<LogAddress>,
}

/// The raw-contract block of an asset-transfer activity item.
#[derive(Debug, Clone)]
pub struct RawContract {
    pub raw_value: String,
    pub address: Option<String>,
    pub decimals: Option<i64>,
}

/// The optional log block of an asset-transfer activity item.
#[derive(Debug, Clone)]
pub struct LogAddress {
    pub address: String,
    pub topics: Vec<String>,
    pub data: String,
    pub block_number: String,
    pub transaction_hash: String,
    pub transaction_index: String,
    pub block_hash: String,
    pub log_index: String,
    pub removed: bool,
}

/// An NFT-transfer webhook envelope.
#[derive(Debug, Clone)]
pub struct WebhookNFT {
    pub webhook_id: String,
    pub id: String,
    pub created_at: String,
    pub type_field: String,
    pub event: EventNFT,
}

/// The event body of an NFT-transfer webhook.
#[derive(Debug, Clone)]
pub struct EventNFT {
    pub network: String,
    pub activity: Vec<ActivityNFT>,
}

/// One NFT-transfer activity item.
#[derive(Debug, Clone)]
pub struct ActivityNFT {
    pub from_address: String,
    pub to_address: String,
    pub contract_address: String,
    pub block_num: String,
    pub hash: String,
    pub erc721_token_id: String,
    pub category: String,
    pub log: Log,
}

/// The log block of an NFT-transfer activity item; its transaction hash is
/// the one the explorer link is built from.
#[derive(Debug, Clone)]
pub struct Log {
    pub address: String,
    pub topics: Vec<String>,
    pub data: String,
    pub block_number: String,
    pub transaction_hash: String,
    pub transaction_index: String,
    pub block_hash: String,
    pub log_index: String,
    pub removed: bool,
}

} // verus!

//! The link builder: maps a network identifier to a block-explorer prefix and
//! joins it with a transaction hash. Total: an unrecognized network falls back
//! to a designated default prefix, so a link is always produced.

use vstd::prelude::*;
use vstd::string::StringExecFns;

verus! {

/// The block-explorer prefix for a network; unrecognized networks get the
/// default (mainnet-Ethereum) prefix.
pub open spec fn explorer_prefix(network: Seq<char>) -> Seq<char> {
    if network == "ETH_GOERLI"@ {
        "https://goerli.etherscan.io/tx"@
    } else if network == "ETH_MAINNET"@ {
        "https://etherscan.io/tx"@
    } else if network == "MATIC_MUMBAI"@ {
        "https://mumbai.polygonscan.com/tx"@
    } else if network == "MATIC_MAINNET"@ {
        "https://polygonscan.com/tx"@
    } else {
        "https://etherscan.io/tx"@
    }
}

/// The explorer link for a transaction: `{prefix}/{txHash}`.
pub open spec fn spec_scan_url(network: Seq<char>, tx_hash: Seq<char>) -> Seq<char> {
    explorer_prefix(network) + "/"@ + tx_hash
}

/// Every explorer link is non-empty: each prefix has at least one character.
pub proof fn lemma_scan_url_nonempty(network: Seq<char>, tx_hash: Seq<char>)
    ensures
        spec_scan_url(network, tx_hash).len() > 0,
{
    reveal_strlit("https://goerli.etherscan.io/tx");
    reveal_strlit("https://etherscan.io/tx");
    reveal_strlit("https://mumbai.polygonscan.com/tx");
    reveal_strlit("https://polygonscan.com/tx");
}

/// Builds the explorer link `{prefix}/{txHash}` for a transaction.
pub fn scan_url(network: String, tx_hash: String) -> (r: String)
    ensures
        r@ == spec_scan_url(network@, tx_hash@),
{
    let prefix: &str = if network == String::from_str("ETH_GOERLI") {
        "https://goerli.etherscan.io/tx"
    } else if network == String::from_str("ETH_MAINNET") {
        "https://etherscan.io/tx"
    } else if network == String::from_str("MATIC_MUMBAI") {
        "https://mumbai.polygonscan.com/tx"
    } else if network == String::from_str("MATIC_MAINNET") {
        "https://polygonscan.com/tx"
    } else {
        "https://etherscan.io/tx"
    };
    let mut r: String = String::from_str(prefix);
    r.append("/");
    r.append(tx_hash.as_str());
    r
}

} // verus!

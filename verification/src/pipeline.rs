//! The event-enrichment pipeline: takes the decode outcome of an inbound
//! webhook, resolves an identity, builds the explorer link, formats the
//! message, and decides where it is delivered.
//!
//! Failures degrade in two tiers: a decode failure or an empty activity list
//! yields a plain-text error for the error channel, while a failed identity
//! resolution still yields the fully formatted notification, redirected to
//! the error channel under the sentinel name `None`.
//!
//! Only the first activity item of a batched payload is processed; further
//! items are deliberately ignored.

use vstd::prelude::*;
use vstd::string::StringExecFns;
use crate::event::WebhookAddress;
use crate::event::WebhookNFT;
use crate::link::scan_url;
use crate::link::spec_scan_url;
use crate::message::NotificationMessage;
use crate::message::error_content;
use crate::message::format_asset_transfer;
use crate::message::format_nft_transfer;
use crate::message::is_asset_message;
use crate::message::is_nft_message;
use crate::resolver::AddressRecord;
use crate::resolver::NftRecord;
use crate::resolver::ResolvedIdentity;
use crate::resolver::get_address;
use crate::resolver::get_nft;
use crate::resolver::spec_get_address;
use crate::resolver::spec_get_nft;
use crate::text::quote_seq;

verus! {

/// Where a notification is delivered: a resolved per-entity URL, or the
/// configured error-fallback channel.
#[derive(Debug, Clone)]
pub enum NotifyTarget {
    Url(String),
    ErrorSink,
}

/// The terminal decision for one inbound event: either a plain-text error for
/// the error channel, or a formatted notification for a target.
#[derive(Debug, Clone)]
pub enum Dispatch {
    PlainError { content: String },
    Notify { target: NotifyTarget, message: NotificationMessage },
}

/// The amount text shown for an asset transfer: the rendered value, or `0.0`
/// when the payload carried none.
pub open spec fn shown_value(v: Option<String>) -> Seq<char> {
    match v {
        Some(s) => s@,
        None => "0.0"@,
    }
}

/// The asset symbol shown for an asset transfer: the symbol, or the empty
/// string when the payload carried none.
pub open spec fn shown_asset(a: Option<String>) -> Seq<char> {
    match a {
        Some(s) => s@,
        None => Seq::empty(),
    }
}

/// Builds the notification for an asset transfer from the resolution
/// outcome: on success the message carries the resolved display name and
/// goes to the resolved URL; on failure it carries the sentinel name `None`
/// and goes to the error channel, still fully formatted.
pub fn build_address_notification(
    resolution: Option<ResolvedIdentity>,
    network: String,
    from_address: String,
    to_address: String,
    asset: String,
    value: String,
    category: String,
    tx_hash: String,
) -> (d: Dispatch)
    ensures
        (d matches Dispatch::Notify { target, message } && {
            let link = spec_scan_url(network@, tx_hash@);
            match resolution {
                Some(id) => (target matches NotifyTarget::Url(u) && u@ == id.notify_target@)
                    && is_asset_message(
                    message,
                    id.display_name@,
                    network@,
                    from_address@,
                    to_address@,
                    value@,
                    quote_seq(asset@),
                    category@,
                    link,
                ),
                None => (target is ErrorSink) && is_asset_message(
                    message,
                    "None"@,
                    network@,
                    from_address@,
                    to_address@,
                    value@,
                    quote_seq(asset@),
                    category@,
                    link,
                ),
            }
        }),
{
    let link: String = scan_url(network.clone(), tx_hash);
    match resolution {
        Some(id) => {
            let message = format_asset_transfer(
                id.display_name,
                network,
                from_address,
                to_address,
                value,
                asset,
                category,
                link,
            );
            Dispatch::Notify { target: NotifyTarget::Url(id.notify_target), message }
        },
        None => {
            let message = format_asset_transfer(
                String::from_str("None"),
                network,
                from_address,
                to_address,
                value,
                asset,
                category,
                link,
            );
            Dispatch::Notify { target: NotifyTarget::ErrorSink, message }
        },
    }
}

/// Builds the notification for an NFT transfer from the resolution outcome,
/// with the same two-tier degradation as the asset path.
pub fn build_nft_notification(
    resolution: Option<ResolvedIdentity>,
    network: String,
    contract_address: String,
    from_address: String,
    to_address: String,
    tx_hash: String,
) -> (d: Dispatch)
    ensures
        (d matches Dispatch::Notify { target, message } && {
            let link = spec_scan_url(network@, tx_hash@);
            match resolution {
                Some(id) => (target matches NotifyTarget::Url(u) && u@ == id.notify_target@)
                    && is_nft_message(
                    message,
                    id.display_name@,
                    network@,
                    contract_address@,
                    from_address@,
                    to_address@,
                    link,
                ),
                None => (target is ErrorSink) && is_nft_message(
                    message,
                    "None"@,
                    network@,
                    contract_address@,
                    from_address@,
                    to_address@,
                    link,
                ),
            }
        }),
{
    let link: String = scan_url(network.clone(), tx_hash);
    match resolution {
        Some(id) => {
            let message = format_nft_transfer(
                id.display_name,
                network,
                contract_address,
                from_address,
                to_address,
                link,
            );
            Dispatch::Notify { target: NotifyTarget::Url(id.notify_target), message }
        },
        None => {
            let message = format_nft_transfer(
                String::from_str("None"),
                network,
                contract_address,
                from_address,
                to_address,
                link,
            );
            Dispatch::Notify { target: NotifyTarget::ErrorSink, message }
        },
    }
}

/// Runs the whole pipeline for an asset-transfer webhook. `decoded` is the
/// decode outcome of the raw body (`Err` carries the parse-error text);
/// `records` are the reference rows the resolver searches. A decode failure
/// or an empty activity list yields a plain-text error — in the empty case
/// exactly `Error: Activity is Zero`, whatever the records hold — and
/// otherwise the first activity item is enriched and formatted.
pub fn process_address_webhook(
    records: &Vec<AddressRecord>,
    decoded: Result<WebhookAddress, String>,
) -> (d: Dispatch)
    ensures
        (match decoded {
            Err(e) => d matches Dispatch::PlainError { content } && content@ == "Error: "@ + e@,
            Ok(w) => {
                if w.event.activity@.len() == 0 {
                    d matches Dispatch::PlainError { content } && content@
                        == "Error: Activity is Zero"@
                } else {
                    let a = w.event.activity@[0];
                    let link = spec_scan_url(w.event.network@, a.hash@);
                    match spec_get_address(
                        records@,
                        w.event.network@,
                        a.from_address@,
                        a.to_address@,
                    ) {
                        Some(rec) => d matches Dispatch::Notify { target, message } && (
                        target matches NotifyTarget::Url(u) && u@ == rec.notify_url@)
                            && is_asset_message(
                            message,
                            rec.name@,
                            w.event.network@,
                            a.from_address@,
                            a.to_address@,
                            shown_value(a.value),
                            quote_seq(shown_asset(a.asset)),
                            a.category@,
                            link,
                        ),
                        None => d matches Dispatch::Notify { target, message } && (
                        target is ErrorSink) && is_asset_message(
                            message,
                            "None"@,
                            w.event.network@,
                            a.from_address@,
                            a.to_address@,
                            shown_value(a.value),
                            quote_seq(shown_asset(a.asset)),
                            a.category@,
                            link,
                        ),
                    }
                }
            },
        }),
{
    match decoded {
        Err(e) => Dispatch::PlainError { content: error_content(e.as_str()) },
        Ok(w) => {
            if w.event.activity.len() == 0 {
                let content = error_content("Activity is Zero");
                proof {
                    reveal_strlit("Error: ");
                    reveal_strlit("Activity is Zero");
                    reveal_strlit("Error: Activity is Zero");
                    assert(content@ =~= "Error: Activity is Zero"@);
                }
                Dispatch::PlainError { content }
            } else {
                let a = &w.event.activity[0];
                let resolution = get_address(
                    records,
                    w.event.network.clone(),
                    a.from_address.clone(),
                    a.to_address.clone(),
                );
                let value_text: String = match &a.value {
                    Some(v) => v.clone(),
                    None => String::from_str("0.0"),
                };
                let asset_text: String = match &a.asset {
                    Some(s) => s.clone(),
                    None => String::new(),
                };
                build_address_notification(
                    resolution,
                    w.event.network.clone(),
                    a.from_address.clone(),
                    a.to_address.clone(),
                    asset_text,
                    value_text,
                    a.category.clone(),
                    a.hash.clone(),
                )
            }
        },
    }
}

/// Runs the whole pipeline for an NFT-transfer webhook; the explorer link is
/// built from the transaction hash of the activity item's log block.
pub fn process_nft_webhook(
    records: &Vec<NftRecord>,
    decoded: Result<WebhookNFT, String>,
) -> (d: Dispatch)
    ensures
        (match decoded {
            Err(e) => d matches Dispatch::PlainError { content } && content@ == "Error: "@ + e@,
            Ok(w) => {
                if w.event.activity@.len() == 0 {
                    d matches Dispatch::PlainError { content } && content@
                        == "Error: Activity is Zero"@
                } else {
                    let a = w.event.activity@[0];
                    let link = spec_scan_url(w.event.network@, a.log.transaction_hash@);
                    match spec_get_nft(records@, w.event.network@, a.contract_address@) {
                        Some(rec) => d matches Dispatch::Notify { target, message } && (
                        target matches NotifyTarget::Url(u) && u@ == rec.notify_url@)
                            && is_nft_message(
                            message,
                            rec.name@,
                            w.event.network@,
                            a.contract_address@,
                            a.from_address@,
                            a.to_address@,
                            link,
                        ),
                        None => d matches Dispatch::Notify { target, message } && (
                        target is ErrorSink) && is_nft_message(
                            message,
                            "None"@,
                            w.event.network@,
                            a.contract_address@,
                            a.from_address@,
                            a.to_address@,
                            link,
                        ),
                    }
                }
            },
        }),
{
    match decoded {
        Err(e) => Dispatch::PlainError { content: error_content(e.as_str()) },
        Ok(w) => {
            if w.event.activity.len() == 0 {
                let content = error_content("Activity is Zero");
                proof {
                    reveal_strlit("Error: ");
                    reveal_strlit("Activity is Zero");
                    reveal_strlit("Error: Activity is Zero");
                    assert(content@ =~= "Error: Activity is Zero"@);
                }
                Dispatch::PlainError { content }
            } else {
                let a = &w.event.activity[0];
                let resolution = get_nft(
                    records,
                    w.event.network.clone(),
                    a.contract_address.clone(),
                );
                build_nft_notification(
                    resolution,
                    w.event.network.clone(),
                    a.contract_address.clone(),
                    a.from_address.clone(),
                    a.to_address.clone(),
                    a.log.transaction_hash.clone(),
                )
            }
        },
    }
}

} // verus!

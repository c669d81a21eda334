//! The notification formatter: builds the structured chat message for an
//! event — a content line, a title, the explorer link, and a fixed ordering
//! of labelled fields — and the plain-text content used on degraded paths.

use vstd::prelude::*;
use vstd::string::StringExecFns;
use crate::text::debug_quote;
use crate::text::quote_seq;

verus! {

/// One labelled value of a notification.
#[derive(Debug, Clone)]
pub struct NotificationField {
    pub name: String,
    pub value: String,
    pub inline: bool,
}

/// A formatted notification: a summary content line and one embed with a
/// title, a link, a thumbnail and an ordered list of fields.
#[derive(Debug, Clone)]
pub struct NotificationMessage {
    pub content: String,
    pub title: String,
    pub url: String,
    pub thumbnail_url: String,
    pub fields: Vec<NotificationField>,
}

/// Whether a field carries exactly this label and value, not inlined.
pub open spec fn field_is(f: NotificationField, name: Seq<char>, value: Seq<char>) -> bool {
    &&& f.name@ == name
    &&& f.value@ == value
    &&& f.inline == false
}

/// The shape of an asset-transfer notification: fixed content line, title and
/// field order Name, Network, From, To, Value, Asset, Category.
pub open spec fn is_asset_message(
    m: NotificationMessage,
    name: Seq<char>,
    network: Seq<char>,
    from: Seq<char>,
    to: Seq<char>,
    value: Seq<char>,
    asset: Seq<char>,
    category: Seq<char>,
    link: Seq<char>,
) -> bool {
    &&& m.content@ == "Address Activity"@
    &&& m.title@ == "Transaction URL"@
    &&& m.url@ == link
    &&& m.thumbnail_url@ == Seq::<char>::empty()
    &&& m.fields@.len() == 7
    &&& field_is(m.fields@[0], "Name"@, name)
    &&& field_is(m.fields@[1], "Network"@, network)
    &&& field_is(m.fields@[2], "From"@, from)
    &&& field_is(m.fields@[3], "To"@, to)
    &&& field_is(m.fields@[4], "Value"@, value)
    &&& field_is(m.fields@[5], "Asset"@, asset)
    &&& field_is(m.fields@[6], "Category"@, category)
}

/// The shape of an NFT-transfer notification: fixed content line, title and
/// field order NFT Name, Network, ContractAddress, FromAddress, ToAddress.
pub open spec fn is_nft_message(
    m: NotificationMessage,
    name: Seq<char>,
    network: Seq<char>,
    contract: Seq<char>,
    from: Seq<char>,
    to: Seq<char>,
    link: Seq<char>,
) -> bool {
    &&& m.content@ == "NFT Activity"@
    &&& m.title@ == "Transaction URL"@
    &&& m.url@ == link
    &&& m.thumbnail_url@ == Seq::<char>::empty()
    &&& m.fields@.len() == 5
    &&& field_is(m.fields@[0], "NFT Name"@, name)
    &&& field_is(m.fields@[1], "Network"@, network)
    &&& field_is(m.fields@[2], "ContractAddress"@, contract)
    &&& field_is(m.fields@[3], "FromAddress"@, from)
    &&& field_is(m.fields@[4], "ToAddress"@, to)
}

/// Formats an asset transfer: the resolved (or sentinel) display name, the
/// raw event fields, the amount as already-rendered text, the asset symbol
/// shown quoted, and the explorer link.
pub fn format_asset_transfer(
    name: String,
    network: String,
    from: String,
    to: String,
    value: String,
    asset: String,
    category: String,
    link: String,
) -> (m: NotificationMessage)
    ensures
        is_asset_message(m, name@, network@, from@, to@, value@, quote_seq(asset@), category@, link@),
{
    let quoted_asset: String = debug_quote(asset.as_str());
    let mut fields: Vec<NotificationField> = Vec::new();
    fields.push(NotificationField { name: String::from_str("Name"), value: name, inline: false });
    fields.push(
        NotificationField { name: String::from_str("Network"), value: network, inline: false },
    );
    fields.push(NotificationField { name: String::from_str("From"), value: from, inline: false });
    fields.push(NotificationField { name: String::from_str("To"), value: to, inline: false });
    fields.push(NotificationField { name: String::from_str("Value"), value: value, inline: false });
    fields.push(
        NotificationField { name: String::from_str("Asset"), value: quoted_asset, inline: false },
    );
    fields.push(
        NotificationField { name: String::from_str("Category"), value: category, inline: false },
    );
    NotificationMessage {
        content: String::from_str("Address Activity"),
        title: String::from_str("Transaction URL"),
        url: link,
        thumbnail_url: String::new(),
        fields,
    }
}

/// Formats an NFT transfer: the resolved (or sentinel) display name, the raw
/// event fields, and the explorer link.
pub fn format_nft_transfer(
    name: String,
    network: String,
    contract_address: String,
    from: String,
    to: String,
    link: String,
) -> (m: NotificationMessage)
    ensures
        is_nft_message(m, name@, network@, contract_address@, from@, to@, link@),
{
    let mut fields: Vec<NotificationField> = Vec::new();
    fields.push(
        NotificationField { name: String::from_str("NFT Name"), value: name, inline: false },
    );
    fields.push(
        NotificationField { name: String::from_str("Network"), value: network, inline: false },
    );
    fields.push(
        NotificationField {
            name: String::from_str("ContractAddress"),
            value: contract_address,
            inline: false,
        },
    );
    fields.push(
        NotificationField { name: String::from_str("FromAddress"), value: from, inline: false },
    );
    fields.push(
        NotificationField { name: String::from_str("ToAddress"), value: to, inline: false },
    );
    NotificationMessage {
        content: String::from_str("NFT Activity"),
        title: String::from_str("Transaction URL"),
        url: link,
        thumbnail_url: String::new(),
        fields,
    }
}

/// Builds the plain-text content of a degraded-path notification:
/// `Error: {message}`.
pub fn error_content(message: &str) -> (r: String)
    ensures
        r@ == "Error: "@ + message@,
{
    let mut r: String = String::from_str("Error: ");
    r.append(message);
    r
}

} // verus!

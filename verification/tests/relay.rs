use activity_relay::event::ActivityAddress;
use activity_relay::event::ActivityNFT;
use activity_relay::event::EventAddress;
use activity_relay::event::EventNFT;
use activity_relay::event::Log;
use activity_relay::event::RawContract;
use activity_relay::event::WebhookAddress;
use activity_relay::event::WebhookNFT;
use activity_relay::link::scan_url;
use activity_relay::message::error_content;
use activity_relay::message::format_asset_transfer;
use activity_relay::message::format_nft_transfer;
use activity_relay::pipeline::process_address_webhook;
use activity_relay::pipeline::process_nft_webhook;
use activity_relay::pipeline::Dispatch;
use activity_relay::pipeline::NotifyTarget;
use activity_relay::resolver::get_address;
use activity_relay::resolver::get_nft;
use activity_relay::resolver::AddressRecord;
use activity_relay::resolver::NftRecord;
use activity_relay::text::debug_quote;
use activity_relay::text::eq_lower;

fn asset_activity(from: &str, to: &str, value: Option<&str>, asset: Option<&str>) -> ActivityAddress {
    ActivityAddress {
        from_address: from.to_string(),
        to_address: to.to_string(),
        block_num: "0x1".to_string(),
        hash: "0xdead".to_string(),
        value: value.map(|v| v.to_string()),
        asset: asset.map(|a| a.to_string()),
        category: "transfer".to_string(),
        raw_contract: RawContract {
            raw_value: "0x0".to_string(),
            address: None,
            decimals: Some(18),
        },
        log: None,
    }
}

fn asset_webhook(network: &str, activity: Vec<ActivityAddress>) -> WebhookAddress {
    WebhookAddress {
        webhook_id: "wh_1".to_string(),
        id: "evt_1".to_string(),
        created_at: "2023-01-01T00:00:00Z".to_string(),
        type_field: "ADDRESS_ACTIVITY".to_string(),
        event: EventAddress {
            network: network.to_string(),
            activity,
        },
    }
}

fn nft_log(tx_hash: &str) -> Log {
    Log {
        address: "0xcontract".to_string(),
        topics: vec!["0xtopic".to_string()],
        data: "0x".to_string(),
        block_number: "0x2".to_string(),
        transaction_hash: tx_hash.to_string(),
        transaction_index: "0x0".to_string(),
        block_hash: "0xblock".to_string(),
        log_index: "0x0".to_string(),
        removed: false,
    }
}

fn nft_webhook(network: &str, activity: Vec<ActivityNFT>) -> WebhookNFT {
    WebhookNFT {
        webhook_id: "wh_2".to_string(),
        id: "evt_2".to_string(),
        created_at: "2023-01-01T00:00:00Z".to_string(),
        type_field: "NFT_ACTIVITY".to_string(),
        event: EventNFT {
            network: network.to_string(),
            activity,
        },
    }
}

fn nft_activity(contract: &str, from: &str, to: &str, tx_hash: &str) -> ActivityNFT {
    ActivityNFT {
        from_address: from.to_string(),
        to_address: to.to_string(),
        contract_address: contract.to_string(),
        block_num: "0x1".to_string(),
        hash: "0xouter".to_string(),
        erc721_token_id: "0x1".to_string(),
        category: "erc721".to_string(),
        log: nft_log(tx_hash),
    }
}

fn address_record(network: &str, address: &str, name: &str, url: &str) -> AddressRecord {
    AddressRecord {
        network: network.to_string(),
        address: address.to_string(),
        name: name.to_string(),
        notify_url: url.to_string(),
    }
}

fn nft_record(network: &str, contract: &str, name: &str, url: &str) -> NftRecord {
    NftRecord {
        network: network.to_string(),
        contract_address: contract.to_string(),
        name: name.to_string(),
        notify_url: url.to_string(),
    }
}

#[test]
fn scan_url_known_networks() {
    assert_eq!(
        scan_url("ETH_MAINNET".to_string(), "0xdead".to_string()),
        "https://etherscan.io/tx/0xdead"
    );
    assert_eq!(
        scan_url("ETH_GOERLI".to_string(), "0xdead".to_string()),
        "https://goerli.etherscan.io/tx/0xdead"
    );
    assert_eq!(
        scan_url("MATIC_MUMBAI".to_string(), "0xdead".to_string()),
        "https://mumbai.polygonscan.com/tx/0xdead"
    );
    assert_eq!(
        scan_url("MATIC_MAINNET".to_string(), "0xdead".to_string()),
        "https://polygonscan.com/tx/0xdead"
    );
}

#[test]
fn scan_url_unknown_network_falls_back() {
    let url = scan_url("SOLANA_MAINNET".to_string(), "abc".to_string());
    assert_eq!(url, "https://etherscan.io/tx/abc");
    assert!(!url.is_empty());
    assert_eq!(scan_url("".to_string(), "abc".to_string()), "https://etherscan.io/tx/abc");
}

#[test]
fn eq_lower_compares_ignoring_ascii_case() {
    assert!(eq_lower("0xABC", "0xabc"));
    assert!(eq_lower("0xabc", "0xabc"));
    assert!(!eq_lower("0xabc", "0xabd"));
    assert!(!eq_lower("0xabc", "0xabcd"));
    assert!(eq_lower("", ""));
}

#[test]
fn debug_quote_wraps_in_quotes() {
    assert_eq!(debug_quote("ETH"), "\"ETH\"");
    assert_eq!(debug_quote(""), "\"\"");
    assert_eq!(debug_quote("a\"b\\c"), "\"a\\\"b\\\\c\"");
}

#[test]
fn error_content_prefixes_message() {
    assert_eq!(error_content("boom"), "Error: boom");
    assert_eq!(error_content(""), "Error: ");
}

#[test]
fn get_address_matches_case_insensitively() {
    let records = vec![address_record(
        "ETH_MAINNET",
        "0xabc",
        "Team Wallet",
        "https://chat.example/team",
    )];
    let upper = get_address(
        &records,
        "ETH_MAINNET".to_string(),
        "0xABC".to_string(),
        "0xother".to_string(),
    )
    .expect("upper-case query should resolve");
    let lower = get_address(
        &records,
        "ETH_MAINNET".to_string(),
        "0xabc".to_string(),
        "0xother".to_string(),
    )
    .expect("lower-case query should resolve");
    assert_eq!(upper.display_name, "Team Wallet");
    assert_eq!(upper.notify_target, "https://chat.example/team");
    assert_eq!(upper.display_name, lower.display_name);
    assert_eq!(upper.notify_target, lower.notify_target);
}

#[test]
fn get_address_matches_either_leg() {
    let records = vec![address_record(
        "ETH_MAINNET",
        "0xbb",
        "Receiver",
        "https://chat.example/recv",
    )];
    let by_to = get_address(
        &records,
        "ETH_MAINNET".to_string(),
        "0xaa".to_string(),
        "0xBB".to_string(),
    )
    .expect("to-address should match");
    assert_eq!(by_to.display_name, "Receiver");
}

#[test]
fn get_address_requires_exact_network() {
    let records = vec![address_record(
        "ETH_MAINNET",
        "0xabc",
        "Team Wallet",
        "https://chat.example/team",
    )];
    let other_net = get_address(
        &records,
        "eth_mainnet".to_string(),
        "0xabc".to_string(),
        "0xabc".to_string(),
    );
    assert!(other_net.is_none());
    let no_match = get_address(
        &records,
        "ETH_MAINNET".to_string(),
        "0xdef".to_string(),
        "0x123".to_string(),
    );
    assert!(no_match.is_none());
}

#[test]
fn get_address_first_record_wins() {
    let records = vec![
        address_record("ETH_MAINNET", "0xabc", "First", "https://chat.example/1"),
        address_record("ETH_MAINNET", "0xABC", "Second", "https://chat.example/2"),
    ];
    let hit = get_address(
        &records,
        "ETH_MAINNET".to_string(),
        "0xabc".to_string(),
        "0xzzz".to_string(),
    )
    .expect("should resolve");
    assert_eq!(hit.display_name, "First");
    assert_eq!(hit.notify_target, "https://chat.example/1");
}

#[test]
fn get_nft_matches_contract_case_insensitively() {
    let records = vec![nft_record(
        "MATIC_MAINNET",
        "0xCOLLECTION",
        "Cool Cats",
        "https://chat.example/nft",
    )];
    let hit = get_nft(
        &records,
        "MATIC_MAINNET".to_string(),
        "0xcollection".to_string(),
    )
    .expect("contract should resolve");
    assert_eq!(hit.display_name, "Cool Cats");
    assert_eq!(hit.notify_target, "https://chat.example/nft");
    assert!(get_nft(&records, "ETH_MAINNET".to_string(), "0xcollection".to_string()).is_none());
}

#[test]
fn format_asset_transfer_field_order() {
    let m = format_asset_transfer(
        "Team Wallet".to_string(),
        "ETH_MAINNET".to_string(),
        "0xaa".to_string(),
        "0xbb".to_string(),
        "2.25".to_string(),
        "ETH".to_string(),
        "transfer".to_string(),
        "https://etherscan.io/tx/0xdead".to_string(),
    );
    assert_eq!(m.content, "Address Activity");
    assert_eq!(m.title, "Transaction URL");
    assert_eq!(m.url, "https://etherscan.io/tx/0xdead");
    assert_eq!(m.thumbnail_url, "");
    let labels: Vec<&str> = m.fields.iter().map(|f| f.name.as_str()).collect();
    assert_eq!(labels, vec!["Name", "Network", "From", "To", "Value", "Asset", "Category"]);
    assert_eq!(m.fields[0].value, "Team Wallet");
    assert_eq!(m.fields[4].value, "2.25");
    assert_eq!(m.fields[5].value, "\"ETH\"");
    assert!(m.fields.iter().all(|f| !f.inline));
}

#[test]
fn format_nft_transfer_field_order() {
    let m = format_nft_transfer(
        "Cool Cats".to_string(),
        "ETH_MAINNET".to_string(),
        "0xcollection".to_string(),
        "0xaa".to_string(),
        "0xbb".to_string(),
        "https://etherscan.io/tx/0xdead".to_string(),
    );
    assert_eq!(m.content, "NFT Activity");
    assert_eq!(m.title, "Transaction URL");
    let labels: Vec<&str> = m.fields.iter().map(|f| f.name.as_str()).collect();
    assert_eq!(
        labels,
        vec!["NFT Name", "Network", "ContractAddress", "FromAddress", "ToAddress"]
    );
    assert_eq!(m.fields[0].value, "Cool Cats");
    assert_eq!(m.fields[2].value, "0xcollection");
}

#[test]
fn empty_activity_goes_to_error_sink() {
    let records = vec![address_record(
        "ETH_MAINNET",
        "0xabc",
        "Team Wallet",
        "https://chat.example/team",
    )];
    let webhook = asset_webhook("ETH_MAINNET", vec![]);
    match process_address_webhook(&records, Ok(webhook)) {
        Dispatch::PlainError { content } => assert_eq!(content, "Error: Activity is Zero"),
        other => panic!("expected a plain error, got {:?}", other),
    }
}

#[test]
fn empty_activity_nft_goes_to_error_sink() {
    let webhook = nft_webhook("ETH_MAINNET", vec![]);
    match process_nft_webhook(&vec![], Ok(webhook)) {
        Dispatch::PlainError { content } => assert_eq!(content, "Error: Activity is Zero"),
        other => panic!("expected a plain error, got {:?}", other),
    }
}

#[test]
fn decode_failure_goes_to_error_sink() {
    let decode_error = "expected value at line 1 column 1".to_string();
    match process_address_webhook(&vec![], Err(decode_error)) {
        Dispatch::PlainError { content } => {
            assert_eq!(content, "Error: expected value at line 1 column 1")
        }
        other => panic!("expected a plain error, got {:?}", other),
    }
}

#[test]
fn resolved_transfer_is_delivered_to_resolved_url() {
    let records = vec![address_record(
        "ETH_MAINNET",
        "0xAA",
        "Team Wallet",
        "https://chat.example/team",
    )];
    let webhook = asset_webhook(
        "ETH_MAINNET",
        vec![asset_activity("0xaa", "0xbb", Some("2.25"), Some("ETH"))],
    );
    match process_address_webhook(&records, Ok(webhook)) {
        Dispatch::Notify { target, message } => {
            match target {
                NotifyTarget::Url(url) => assert_eq!(url, "https://chat.example/team"),
                NotifyTarget::ErrorSink => panic!("expected the resolved URL"),
            }
            assert_eq!(message.fields[0].name, "Name");
            assert_eq!(message.fields[0].value, "Team Wallet");
            assert_eq!(message.url, "https://etherscan.io/tx/0xdead");
        }
        other => panic!("expected a notification, got {:?}", other),
    }
}

#[test]
fn unresolved_transfer_scenario() {
    let webhook = asset_webhook(
        "ETH_MAINNET",
        vec![asset_activity(
            "0xAA",
            "0xBB",
            Some(&format!("{:?}", 1.5f64)),
            Some("ETH"),
        )],
    );
    match process_address_webhook(&vec![], Ok(webhook)) {
        Dispatch::Notify { target, message } => {
            assert!(matches!(target, NotifyTarget::ErrorSink));
            let shown: Vec<(&str, &str)> = message
                .fields
                .iter()
                .map(|f| (f.name.as_str(), f.value.as_str()))
                .collect();
            assert_eq!(
                shown,
                vec![
                    ("Name", "None"),
                    ("Network", "ETH_MAINNET"),
                    ("From", "0xAA"),
                    ("To", "0xBB"),
                    ("Value", "1.5"),
                    ("Asset", "\"ETH\""),
                    ("Category", "transfer"),
                ]
            );
            assert_eq!(message.url, "https://etherscan.io/tx/0xdead");
            assert_eq!(message.content, "Address Activity");
        }
        other => panic!("expected a notification, got {:?}", other),
    }
}

#[test]
fn missing_value_and_asset_get_defaults() {
    let webhook = asset_webhook("ETH_MAINNET", vec![asset_activity("0xaa", "0xbb", None, None)]);
    match process_address_webhook(&vec![], Ok(webhook)) {
        Dispatch::Notify { message, .. } => {
            assert_eq!(message.fields[4].value, "0.0");
            assert_eq!(message.fields[5].value, "\"\"");
        }
        other => panic!("expected a notification, got {:?}", other),
    }
}

#[test]
fn resolved_nft_transfer_uses_log_transaction_hash() {
    let records = vec![nft_record(
        "ETH_MAINNET",
        "0xcollection",
        "Cool Cats",
        "https://chat.example/nft",
    )];
    let webhook = nft_webhook(
        "ETH_MAINNET",
        vec![nft_activity("0xCOLLECTION", "0xaa", "0xbb", "0xfeed")],
    );
    match process_nft_webhook(&records, Ok(webhook)) {
        Dispatch::Notify { target, message } => {
            match target {
                NotifyTarget::Url(url) => assert_eq!(url, "https://chat.example/nft"),
                NotifyTarget::ErrorSink => panic!("expected the resolved URL"),
            }
            assert_eq!(message.content, "NFT Activity");
            assert_eq!(message.fields[0].value, "Cool Cats");
            assert_eq!(message.fields[2].value, "0xCOLLECTION");
            assert_eq!(message.url, "https://etherscan.io/tx/0xfeed");
        }
        other => panic!("expected a notification, got {:?}", other),
    }
}

#[test]
fn unresolved_nft_transfer_redirects_to_error_sink() {
    let webhook = nft_webhook(
        "MATIC_MAINNET",
        vec![nft_activity("0xunknown", "0xaa", "0xbb", "0xfeed")],
    );
    match process_nft_webhook(&vec![], Ok(webhook)) {
        Dispatch::Notify { target, message } => {
            assert!(matches!(target, NotifyTarget::ErrorSink));
            assert_eq!(message.fields[0].name, "NFT Name");
            assert_eq!(message.fields[0].value, "None");
            assert_eq!(message.url, "https://polygonscan.com/tx/0xfeed");
        }
        other => panic!("expected a notification, got {:?}", other),
    }
}

#[test]
fn only_first_activity_item_is_processed() {
    let webhook = asset_webhook(
        "ETH_MAINNET",
        vec![
            asset_activity("0xaa", "0xbb", Some("1.0"), Some("ETH")),
            asset_activity("0xcc", "0xdd", Some("9.0"), Some("DAI")),
        ],
    );
    match process_address_webhook(&vec![], Ok(webhook)) {
        Dispatch::Notify { message, .. } => {
            assert_eq!(message.fields[2].value, "0xaa");
            assert_eq!(message.fields[3].value, "0xbb");
            assert_eq!(message.fields[4].value, "1.0");
        }
        other => panic!("expected a notification, got {:?}", other),
    }
}

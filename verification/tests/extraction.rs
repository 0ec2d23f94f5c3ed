//! Extraction behaviour: sentinel detection, decode, and drop rules.
use battlemon_indexer::extract::{
    decode_market_event, decode_nft_event, extract_nft_events, DropReason,
};
use battlemon_indexer::models::{
    MarketEventKind, NftEvent, NftEventKind, NftEventLogKind, StandardKind, VersionKind,
};
use battlemon_indexer::EVENT_PREFIX;

fn mint_event_json() -> String {
    "{\"standard\":\"nep171\",\"version\":\"1.0.0\",\"event\":\"nft_mint\",\"data\":[{\"owner_id\":\"battlemon.testnet\",\"token_ids\":[\"2\"],\"memo\":null}]}".to_string()
}

#[test]
fn nft_event_mint_deserialization() {
    let json = mint_event_json();
    let value: serde_json::Value = serde_json::from_str(&json).expect("Couldn't deserialize json");
    let nft_event = decode_nft_event(&value);

    match nft_event {
        Some(NftEvent {
            standard: StandardKind::Nep171,
            version: VersionKind::V1_0_0,
            event: NftEventKind::NftMint,
            data,
        }) => {
            let nft_event_log = data.get(0).expect("must be at least one event");
            assert!(matches!(nft_event_log, NftEventLogKind::NftMintLog { .. }))
        }
        _ => panic!("deserialized struct is wrong."),
    }
}

#[test]
fn mint_log_fields_carry_over() {
    let json = mint_event_json();
    let value: serde_json::Value = serde_json::from_str(&json).unwrap();
    let event = decode_nft_event(&value).unwrap();
    assert_eq!(event.data.len(), 1);
    match &event.data[0] {
        NftEventLogKind::NftMintLog { owner_id, token_ids, memo } => {
            assert_eq!(owner_id, "battlemon.testnet");
            assert_eq!(token_ids, &vec!["2".to_string()]);
            assert!(memo.is_none());
        }
    }
}

#[test]
fn lines_without_prefix_are_silent() {
    let logs = vec![
        "plain log line".to_string(),
        "another line, EVENT_JSON: not at the start".to_string(),
        String::new(),
    ];
    let ex = extract_nft_events(&logs);
    assert!(ex.events.is_empty());
    assert!(ex.diags.is_empty());
}

#[test]
fn invalid_json_line_reports_one_diagnostic_and_continues() {
    let logs = vec![
        format!("{EVENT_PREFIX}{{not json at all"),
        format!("{EVENT_PREFIX}{}", mint_event_json()),
    ];
    let ex = extract_nft_events(&logs);
    assert_eq!(ex.events.len(), 1, "the later well-formed line must still decode");
    assert_eq!(ex.diags.len(), 1);
    assert_eq!(ex.diags[0].line_index, 0);
    assert_eq!(ex.diags[0].reason, DropReason::InvalidJson);
}

#[test]
fn unknown_shape_is_dropped_not_parsed() {
    let logs = vec!["EVENT_JSON:{\"standard\":\"nep999\",\"event\":\"nft_mint\"}".to_string()];
    let ex = extract_nft_events(&logs);
    assert!(ex.events.is_empty());
    assert_eq!(ex.diags.len(), 1);
    assert_eq!(ex.diags[0].reason, DropReason::UnknownShape);
}

#[test]
fn prefix_survives_surrounding_whitespace() {
    let logs = vec![format!("  \t EVENT_JSON:{} \n", mint_event_json())];
    let ex = extract_nft_events(&logs);
    assert_eq!(ex.events.len(), 1);
    assert!(ex.diags.is_empty());
}

#[test]
fn market_event_decodes_by_discriminant() {
    let json = "{\"add_bid\":{\"account_id\":\"bob.testnet\",\"token_id\":\"7\",\"price\":\"1000000000000000000000000\"}}";
    let value: serde_json::Value = serde_json::from_str(json).unwrap();
    match decode_market_event(&value) {
        Some(MarketEventKind::AddBid(order)) => {
            assert_eq!(order.account_id, "bob.testnet");
            assert_eq!(order.token_id, "7");
        }
        _ => panic!("expected an add_bid event"),
    }
}

#[test]
fn ambiguous_market_event_is_rejected() {
    let json = "{\"add_bid\":{\"account_id\":\"a\",\"token_id\":\"1\",\"price\":\"1\"},\"remove_bid\":{\"account_id\":\"a\",\"token_id\":\"1\",\"price\":\"1\"}}";
    let value: serde_json::Value = serde_json::from_str(json).unwrap();
    assert!(decode_market_event(&value).is_none());
}

#[test]
fn memo_may_be_a_string() {
    let json = "{\"standard\":\"nep171\",\"version\":\"1.0.0\",\"event\":\"nft_burn\",\"data\":[{\"owner_id\":\"a.testnet\",\"token_ids\":[\"1\",\"2\"],\"memo\":\"gift\"}]}";
    let value: serde_json::Value = serde_json::from_str(json).unwrap();
    let event = decode_nft_event(&value).unwrap();
    assert_eq!(event.event, NftEventKind::NftBurn);
    match &event.data[0] {
        NftEventLogKind::NftMintLog { token_ids, memo, .. } => {
            assert_eq!(token_ids.len(), 2);
            assert_eq!(memo.as_deref(), Some("gift"));
        }
    }
}

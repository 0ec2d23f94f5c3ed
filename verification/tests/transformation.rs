//! Transformer behaviour: price normalization, the opaque success
//! payload, the one-or-many mint shape, and the typed error cases.
use battlemon_indexer::models::{
    CanonicalRecord, MarketEventKind, MarketOrder, MarketSale, NftEvent, NftEventKind,
    NftEventLogKind, OutcomeStatus, StandardKind, VersionKind,
};
use battlemon_indexer::price::normalize_price;
use battlemon_indexer::transform::{transform_market_event, transform_nft_event, TransformError};

fn mint_event(kind: NftEventKind) -> NftEvent {
    NftEvent {
        standard: StandardKind::Nep171,
        version: VersionKind::V1_0_0,
        event: kind,
        data: vec![NftEventLogKind::NftMintLog {
            owner_id: "a.testnet".to_string(),
            token_ids: vec!["7".to_string()],
            memo: None,
        }],
    }
}

fn token_payload_json() -> &'static str {
    "{\"token_id\":\"7\",\"owner_id\":\"a.testnet\",\"metadata\":{\"title\":\"Lemon\",\"copies\":2},\"model\":{\"exo\":\"steel\"}}"
}

#[test]
fn price_of_one_unit_normalizes_to_one() {
    let r = normalize_price("1000000000000000000000000").unwrap();
    assert_eq!(r, "1");
}

#[test]
fn price_with_fraction_keeps_exact_decimal() {
    let r = normalize_price("2500000000000000000000000").unwrap();
    assert_eq!(r, "2.5");
}

#[test]
fn price_below_one_unit_pads_with_zeros() {
    let r = normalize_price("5").unwrap();
    assert_eq!(r, "0.000000000000000000000005");
}

#[test]
fn price_with_leading_zeros_is_canonical() {
    let r = normalize_price("0001000000000000000000000000").unwrap();
    assert_eq!(r, "1");
    let r = normalize_price("12000000000000000000000000000").unwrap();
    assert_eq!(r, "12000");
}

#[test]
fn empty_or_non_digit_price_is_rejected() {
    assert!(normalize_price("").is_none());
    assert!(normalize_price("12x4").is_none());
    assert!(normalize_price("-5").is_none());
}

#[test]
fn mint_decodes_success_payload_into_create_records() {
    let event = mint_event(NftEventKind::NftMint);
    let status = OutcomeStatus::SuccessValue(base64::encode(token_payload_json()));
    let records = transform_nft_event(&event, &status).unwrap();
    assert_eq!(records.len(), 1);
    match &records[0] {
        CanonicalRecord::CreateToken(t) => {
            assert_eq!(t.token_id, "7");
            assert_eq!(t.owner_id, "a.testnet");
            assert_eq!(t.title.as_deref(), Some("Lemon"));
            assert_eq!(t.copies, Some(2));
            assert!(t.description.is_none());
            assert_eq!(t.model_json, "{\"exo\":\"steel\"}");
        }
        _ => panic!("expected a created token record"),
    }
}

#[test]
fn mint_accepts_a_batch_of_tokens() {
    let event = mint_event(NftEventKind::NftMint);
    let batch = "[{\"token_id\":\"7\",\"owner_id\":\"a.testnet\",\"metadata\":{},\"model\":null},{\"token_id\":\"8\",\"owner_id\":\"b.testnet\",\"metadata\":{},\"model\":null}]";
    let status = OutcomeStatus::SuccessValue(base64::encode(batch));
    let records = transform_nft_event(&event, &status).unwrap();
    assert_eq!(records.len(), 2);
    match (&records[0], &records[1]) {
        (CanonicalRecord::CreateToken(a), CanonicalRecord::CreateToken(b)) => {
            assert_eq!(a.token_id, "7");
            assert_eq!(b.token_id, "8");
        }
        _ => panic!("expected two created token records"),
    }
}

#[test]
fn assemble_updates_one_token() {
    let event = mint_event(NftEventKind::AssembleNft);
    let status = OutcomeStatus::SuccessValue(base64::encode(token_payload_json()));
    let records = transform_nft_event(&event, &status).unwrap();
    assert_eq!(records.len(), 1);
    assert!(matches!(&records[0], CanonicalRecord::UpdateToken(_)));
}

#[test]
fn burn_is_not_implemented() {
    let event = mint_event(NftEventKind::NftBurn);
    let status = OutcomeStatus::SuccessValue(base64::encode(token_payload_json()));
    assert_eq!(transform_nft_event(&event, &status).unwrap_err(), TransformError::NotImplemented);
}

#[test]
fn mint_without_success_status_is_an_error() {
    let event = mint_event(NftEventKind::NftMint);
    assert_eq!(
        transform_nft_event(&event, &OutcomeStatus::Failure).unwrap_err(),
        TransformError::NotSuccessStatus
    );
}

#[test]
fn bad_base64_payload_is_an_error() {
    let event = mint_event(NftEventKind::NftMint);
    let status = OutcomeStatus::SuccessValue("!!!not-base64!!!".to_string());
    assert_eq!(
        transform_nft_event(&event, &status).unwrap_err(),
        TransformError::PayloadNotBase64
    );
}

#[test]
fn non_json_payload_is_an_error() {
    let event = mint_event(NftEventKind::NftMint);
    let status = OutcomeStatus::SuccessValue(base64::encode("not json"));
    assert_eq!(transform_nft_event(&event, &status).unwrap_err(), TransformError::PayloadNotJson);
}

#[test]
fn wrong_shape_payload_is_an_error() {
    let event = mint_event(NftEventKind::NftMint);
    let status = OutcomeStatus::SuccessValue(base64::encode("{\"token_id\":\"7\"}"));
    assert_eq!(
        transform_nft_event(&event, &status).unwrap_err(),
        TransformError::PayloadWrongShape
    );
}

#[test]
fn sale_price_is_normalized() {
    let event = MarketEventKind::Sale(MarketSale {
        prev_owner: "a.testnet".to_string(),
        curr_owner: "b.testnet".to_string(),
        token_id: "7".to_string(),
        price: "2500000000000000000000000".to_string(),
    });
    match transform_market_event(&event).unwrap() {
        CanonicalRecord::NewSale(s) => {
            assert_eq!(s.price, "2.5");
            assert_eq!(s.prev_owner, "a.testnet");
            assert_eq!(s.curr_owner, "b.testnet");
        }
        _ => panic!("expected a sale record"),
    }
}

#[test]
fn invalid_sale_price_is_an_error() {
    let event = MarketEventKind::Sale(MarketSale {
        prev_owner: "a".to_string(),
        curr_owner: "b".to_string(),
        token_id: "7".to_string(),
        price: "1.5".to_string(),
    });
    assert_eq!(transform_market_event(&event).unwrap_err(), TransformError::PriceInvalid);
}

#[test]
fn transformation_is_idempotent() {
    let event = mint_event(NftEventKind::NftMint);
    let status = OutcomeStatus::SuccessValue(base64::encode(token_payload_json()));
    let first = transform_nft_event(&event, &status).unwrap();
    let second = transform_nft_event(&event, &status).unwrap();
    assert_eq!(first.len(), second.len());
    match (&first[0], &second[0]) {
        (CanonicalRecord::CreateToken(a), CanonicalRecord::CreateToken(b)) => {
            assert_eq!(a.token_id, b.token_id);
            assert_eq!(a.owner_id, b.owner_id);
            assert_eq!(a.title, b.title);
            assert_eq!(a.copies, b.copies);
            assert_eq!(a.model_json, b.model_json);
        }
        _ => panic!("expected matching created token records"),
    }

    let bid = MarketEventKind::AddBid(MarketOrder {
        account_id: "bob.testnet".to_string(),
        token_id: "7".to_string(),
        price: "1000000000000000000000000".to_string(),
    });
    match (transform_market_event(&bid).unwrap(), transform_market_event(&bid).unwrap()) {
        (CanonicalRecord::NewBid(x), CanonicalRecord::NewBid(y)) => {
            assert_eq!(x.account_id, y.account_id);
            assert_eq!(x.token_id, y.token_id);
            assert_eq!(x.price, y.price);
        }
        _ => panic!("expected matching bid records"),
    }
}

//! Sink behaviour: request planning, response classification, REST
//! per-record isolation, and SQL block atomicity.
use battlemon_indexer::config::{ContractConfig, RestConfig};
use battlemon_indexer::models::{CanonicalRecord, OrderRecord, SaleRecord, TokenRecord};
use battlemon_indexer::sink::{
    classify_response, contracts_registration_plan, record_request_plan, rest_delivery_report,
    sql_block_commits, HttpMethod, HttpResponseData, RecordOutcome,
};

fn rest_config() -> RestConfig {
    RestConfig::new(
        "http://127.0.0.1".to_string(),
        8080,
        "indexer".to_string(),
        "pw".to_string(),
    )
}

fn some_token() -> TokenRecord {
    TokenRecord {
        token_id: "7".to_string(),
        owner_id: "a.testnet".to_string(),
        title: Some("Lemon \"one\"".to_string()),
        description: None,
        media: None,
        copies: Some(2),
        issued_at: None,
        expires_at: None,
        model_json: "{\"exo\":\"steel\"}".to_string(),
    }
}

fn some_order() -> OrderRecord {
    OrderRecord {
        account_id: "bob.testnet".to_string(),
        token_id: "7".to_string(),
        price: "2.5".to_string(),
    }
}

#[test]
fn base_url_renders_host_and_port() {
    assert_eq!(rest_config().base_url(), "http://127.0.0.1:8080");
}

#[test]
fn created_token_is_posted_to_nft_tokens() {
    let plan = record_request_plan(&CanonicalRecord::CreateToken(some_token()), &rest_config());
    assert_eq!(plan.method, HttpMethod::Post);
    assert_eq!(plan.url, "http://127.0.0.1:8080/nft_tokens");
    assert!(plan.body.contains("\"token_id\":\"7\""));
    assert!(plan.body.contains("\"owner_id\":\"a.testnet\""));
    assert!(plan.body.contains("\"copies\":2"));
    assert!(plan.body.contains("\"media_hash\":null"));
    assert!(plan.body.contains("\"model\":{\"exo\":\"steel\"}"));
}

#[test]
fn token_body_escapes_strings() {
    let plan = record_request_plan(&CanonicalRecord::CreateToken(some_token()), &rest_config());
    assert!(plan.body.contains("\"title\":\"Lemon \\\"one\\\"\""));
}

#[test]
fn updated_token_is_patched() {
    let plan = record_request_plan(&CanonicalRecord::UpdateToken(some_token()), &rest_config());
    assert_eq!(plan.method, HttpMethod::Patch);
    assert_eq!(plan.url, "http://127.0.0.1:8080/nft_tokens");
}

#[test]
fn sale_is_posted_to_sales() {
    let sale = SaleRecord {
        prev_owner: "a.testnet".to_string(),
        curr_owner: "b.testnet".to_string(),
        token_id: "7".to_string(),
        price: "2.5".to_string(),
    };
    let plan = record_request_plan(&CanonicalRecord::NewSale(sale), &rest_config());
    assert_eq!(plan.method, HttpMethod::Post);
    assert_eq!(plan.url, "http://127.0.0.1:8080/sales");
    assert_eq!(
        plan.body,
        "{\"prev_owner\":\"a.testnet\",\"curr_owner\":\"b.testnet\",\"token_id\":\"7\",\"price\":\"2.5\"}"
    );
}

#[test]
fn bids_and_asks_have_create_and_remove_plans() {
    let rest = rest_config();
    let new_bid = record_request_plan(&CanonicalRecord::NewBid(some_order()), &rest);
    assert_eq!(new_bid.method, HttpMethod::Post);
    assert_eq!(new_bid.url, "http://127.0.0.1:8080/bids");
    let drop_bid = record_request_plan(&CanonicalRecord::DropBid(some_order()), &rest);
    assert_eq!(drop_bid.method, HttpMethod::Delete);
    assert_eq!(drop_bid.url, "http://127.0.0.1:8080/bids");
    let new_ask = record_request_plan(&CanonicalRecord::NewAsk(some_order()), &rest);
    assert_eq!(new_ask.method, HttpMethod::Post);
    assert_eq!(new_ask.url, "http://127.0.0.1:8080/asks");
    let drop_ask = record_request_plan(&CanonicalRecord::DropAsk(some_order()), &rest);
    assert_eq!(drop_ask.method, HttpMethod::Delete);
    assert_eq!(drop_ask.url, "http://127.0.0.1:8080/asks");
    assert_eq!(new_bid.body, "{\"account_id\":\"bob.testnet\",\"token_id\":\"7\",\"price\":\"2.5\"}");
}

#[test]
fn contract_registration_is_posted_once_at_startup() {
    let cfg = ContractConfig::new(
        "top.testnet".to_string(),
        "nft.testnet".to_string(),
        "market.testnet".to_string(),
    );
    let plan = contracts_registration_plan(&cfg, &rest_config());
    assert_eq!(plan.method, HttpMethod::Post);
    assert_eq!(plan.url, "http://127.0.0.1:8080/contracts");
    assert_eq!(
        plan.body,
        "{\"top_contract_id\":\"top.testnet\",\"nft_contract_id\":\"nft.testnet\",\"market_contract_id\":\"market.testnet\"}"
    );
}

#[test]
fn success_statuses_are_stored() {
    assert!(matches!(classify_response(200, ""), RecordOutcome::Stored));
    assert!(matches!(classify_response(204, "ignored"), RecordOutcome::Stored));
    assert!(matches!(classify_response(299, ""), RecordOutcome::Stored));
}

#[test]
fn failure_carries_the_structured_error_message() {
    match classify_response(500, "{\"error\":\"boom\"}") {
        RecordOutcome::Failed(Some(msg)) => assert_eq!(msg, "boom"),
        _ => panic!("expected a failure with a message"),
    }
    assert!(matches!(classify_response(500, "not json"), RecordOutcome::Failed(None)));
    assert!(matches!(classify_response(404, "{\"other\":1}"), RecordOutcome::Failed(None)));
}

#[test]
fn rest_failures_are_isolated_per_record() {
    let responses = vec![
        HttpResponseData { status: 201, body: String::new() },
        HttpResponseData { status: 500, body: "{\"error\":\"boom\"}".to_string() },
        HttpResponseData { status: 201, body: String::new() },
    ];
    let report = rest_delivery_report(&responses);
    assert_eq!(report.len(), 3, "every record is attempted and reported");
    assert!(matches!(report[0], RecordOutcome::Stored));
    assert!(matches!(report[1], RecordOutcome::Failed(Some(_))));
    assert!(matches!(report[2], RecordOutcome::Stored));
}

#[test]
fn sql_block_commits_only_when_every_insert_succeeds() {
    assert!(sql_block_commits(&vec![true, true, true]));
    assert!(sql_block_commits(&vec![]));
    assert!(!sql_block_commits(&vec![true, false, true]), "one failure rolls the block back");
    assert!(!sql_block_commits(&vec![false]));
}

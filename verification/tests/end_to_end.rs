//! Routing and whole-pipeline scenarios: a mint outcome becomes one
//! posted token, a market bid becomes one posted bid, a non-monitored
//! outcome contributes nothing, and the sequencer keeps block order.
use battlemon_indexer::config::{ContractConfig, NearNetworkKind, RestConfig, Route};
use battlemon_indexer::models::{BlockMessage, ExecutionOutcome, OutcomeStatus, Shard};
use battlemon_indexer::pipeline::{process_block, process_outcome};
use battlemon_indexer::sequencer::SequencerState;
use battlemon_indexer::sink::HttpMethod;

fn contracts() -> ContractConfig {
    ContractConfig::new(
        "top.testnet".to_string(),
        "nft.testnet".to_string(),
        "market.testnet".to_string(),
    )
}

fn rest() -> RestConfig {
    RestConfig::new("http://rest".to_string(), 80, "u".to_string(), "pw".to_string())
}

fn mint_outcome() -> ExecutionOutcome {
    let token = "{\"token_id\":\"7\",\"owner_id\":\"a.testnet\",\"metadata\":{\"title\":\"Lemon\"},\"model\":{\"exo\":\"steel\"}}";
    ExecutionOutcome {
        receiver_id: "nft.testnet".to_string(),
        logs: vec![
            "ordinary log line".to_string(),
            "EVENT_JSON:{\"standard\":\"nep171\",\"version\":\"1.0.0\",\"event\":\"nft_mint\",\"data\":[{\"owner_id\":\"a.testnet\",\"token_ids\":[\"7\"],\"memo\":null}]}".to_string(),
        ],
        status: OutcomeStatus::SuccessValue(base64::encode(token)),
    }
}

fn bid_outcome() -> ExecutionOutcome {
    ExecutionOutcome {
        receiver_id: "market.testnet".to_string(),
        logs: vec![
            "EVENT_JSON:{\"add_bid\":{\"account_id\":\"bob.testnet\",\"token_id\":\"7\",\"price\":\"2500000000000000000000000\"}}".to_string(),
        ],
        status: OutcomeStatus::Failure,
    }
}

#[test]
fn routing_follows_the_registry() {
    let cfg = contracts();
    assert_eq!(cfg.route("nft.testnet"), Route::NftPath);
    assert_eq!(cfg.route("market.testnet"), Route::MarketPath);
    assert_eq!(cfg.route("stranger.testnet"), Route::Skip);
    assert_eq!(cfg.nft_id(), "nft.testnet");
    assert_eq!(cfg.market_id(), "market.testnet");
    let (top, nft, market) = cfg.ids();
    assert_eq!(top, "top.testnet");
    assert_eq!(nft, "nft.testnet");
    assert_eq!(market, "market.testnet");
}

#[test]
fn unmonitored_outcome_contributes_nothing() {
    let outcome = ExecutionOutcome {
        receiver_id: "stranger.testnet".to_string(),
        logs: vec!["EVENT_JSON:{broken".to_string()],
        status: OutcomeStatus::Failure,
    };
    let work = process_outcome(&contracts(), &rest(), &outcome);
    assert!(work.plans.is_empty());
    assert!(work.extract_diags.is_empty(), "extraction is not even consulted");
    assert!(work.transform_errors.is_empty());
}

#[test]
fn monitored_mint_outcome_plans_one_posted_token() {
    let work = process_outcome(&contracts(), &rest(), &mint_outcome());
    assert_eq!(work.plans.len(), 1);
    assert_eq!(work.plans[0].method, HttpMethod::Post);
    assert_eq!(work.plans[0].url, "http://rest:80/nft_tokens");
    assert!(work.plans[0].body.contains("\"token_id\":\"7\""));
    assert!(work.plans[0].body.contains("\"owner_id\":\"a.testnet\""));
    assert!(work.extract_diags.is_empty());
    assert!(work.transform_errors.is_empty());
}

#[test]
fn market_bid_plans_one_posted_bid_independent_of_nft_events() {
    let block = BlockMessage {
        height: 42,
        shards: vec![Shard { outcomes: vec![mint_outcome(), bid_outcome()] }],
    };
    let work = process_block(&contracts(), &rest(), &block);
    assert_eq!(work.plans.len(), 2);
    assert_eq!(work.plans[0].url, "http://rest:80/nft_tokens");
    assert_eq!(work.plans[1].method, HttpMethod::Post);
    assert_eq!(work.plans[1].url, "http://rest:80/bids");
    assert_eq!(
        work.plans[1].body,
        "{\"account_id\":\"bob.testnet\",\"token_id\":\"7\",\"price\":\"2.5\"}"
    );
}

#[test]
fn failed_transform_is_reported_and_skipped() {
    let mut outcome = mint_outcome();
    outcome.status = OutcomeStatus::Failure;
    let work = process_outcome(&contracts(), &rest(), &outcome);
    assert!(work.plans.is_empty());
    assert_eq!(work.transform_errors.len(), 1);
}

#[test]
fn sequencer_keeps_single_block_in_flight_and_height_order() {
    let mut seq = SequencerState::initial();
    assert!(seq.can_start(10));
    seq.start_block(10);
    assert!(!seq.can_start(11), "only one block may be in flight");
    seq.complete_block(10);
    assert!(!seq.can_start(10), "heights must strictly increase");
    assert!(!seq.can_start(9));
    assert!(seq.can_start(11));
    seq.start_block(11);
    seq.complete_block(11);
    seq.request_stop();
    assert!(!seq.can_start(12), "no new block starts after a stop request");
}

#[test]
fn network_kinds_name_their_rpc_endpoints() {
    assert_eq!(NearNetworkKind::Mainnet.rpc_url(), "https://archival-rpc.mainnet.near.org");
    assert_eq!(NearNetworkKind::Testnet.rpc_url(), "https://archival-rpc.testnet.near.org");
}

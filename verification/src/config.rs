//! Process configuration as explicit values: the registry of monitored
//! contract identities, the REST sink's endpoint settings, and the
//! network selection. Everything here is constructed once at startup and
//! passed by reference; there is no global state.
use vstd::prelude::*;
use vstd::string::StringExecFns;

use crate::strings::{spec_u64_dec, text_eq, u64_to_dec};

verus! {

/// Which contract-domain handler an outcome is routed to.
#[derive(Debug, Clone, Copy, PartialEq, Eq, Structural)]
pub enum Route {
    /// The outcome belongs to the monitored NFT contract.
    NftPath,
    /// The outcome belongs to the monitored market contract.
    MarketPath,
    /// The outcome belongs to no monitored contract and is ignored.
    Skip,
}

/// The registry of monitored contract identities: top-level, NFT, and
/// market. Loaded once at process start, read-only thereafter.
#[derive(Debug, Clone)]
pub struct ContractConfig {
    top_contract_id: String,
    nft_contract_id: String,
    market_contract_id: String,
}

/// Mathematical model of the contract registry.
pub struct ContractConfigView {
    pub top_contract_id: Seq<char>,
    pub nft_contract_id: Seq<char>,
    pub market_contract_id: Seq<char>,
}

impl View for ContractConfig {
    type V = ContractConfigView;

    closed spec fn view(&self) -> ContractConfigView {
        ContractConfigView {
            top_contract_id: self.top_contract_id@,
            nft_contract_id: self.nft_contract_id@,
            market_contract_id: self.market_contract_id@,
        }
    }
}

/// Where an outcome with the given receiver is routed: the NFT identity
/// first, then the market identity, otherwise nowhere.
pub open spec fn spec_route(cfg: ContractConfigView, receiver: Seq<char>) -> Route {
    if receiver == cfg.nft_contract_id {
        Route::NftPath
    } else if receiver == cfg.market_contract_id {
        Route::MarketPath
    } else {
        Route::Skip
    }
}

impl ContractConfig {
    /// Builds the registry from the three monitored identities.
    pub fn new(top_contract_id: String, nft_contract_id: String, market_contract_id: String) -> (r:
        ContractConfig)
        ensures
            r@.top_contract_id == top_contract_id@,
            r@.nft_contract_id == nft_contract_id@,
            r@.market_contract_id == market_contract_id@,
    {
        ContractConfig { top_contract_id, nft_contract_id, market_contract_id }
    }

    /// The three monitored identities: top-level, NFT, market.
    pub fn ids(&self) -> (r: (&String, &String, &String))
        ensures
            r.0@ == self@.top_contract_id,
            r.1@ == self@.nft_contract_id,
            r.2@ == self@.market_contract_id,
    {
        (&self.top_contract_id, &self.nft_contract_id, &self.market_contract_id)
    }

    /// The monitored NFT contract identity.
    pub fn nft_id(&self) -> (r: &String)
        ensures
            r@ == self@.nft_contract_id,
    {
        &self.nft_contract_id
    }

    /// The monitored market contract identity.
    pub fn market_id(&self) -> (r: &String)
        ensures
            r@ == self@.market_contract_id,
    {
        &self.market_contract_id
    }

    /// Decides which domain handler the receiver belongs to, and has no
    /// other effect.
    pub fn route(&self, receiver: &str) -> (r: Route)
        ensures
            r == spec_route(self@, receiver@),
    {
        if text_eq(receiver, self.nft_contract_id.as_str()) {
            Route::NftPath
        } else if text_eq(receiver, self.market_contract_id.as_str()) {
            Route::MarketPath
        } else {
            Route::Skip
        }
    }
}

/// An outcome of a non-monitored account is skipped: no extraction, no
/// delivery, no diagnostic follows from it.
pub proof fn lemma_unmonitored_receiver_skipped(cfg: ContractConfigView, receiver: Seq<char>)
    requires
        receiver != cfg.nft_contract_id,
        receiver != cfg.market_contract_id,
    ensures
        spec_route(cfg, receiver) == Route::Skip,
{
}

/// Which chain network the upstream stream follows.
#[derive(Debug, Clone, Copy, PartialEq, Eq, Structural)]
pub enum NearNetworkKind {
    Mainnet,
    Testnet,
}

impl NearNetworkKind {
    /// The archival RPC endpoint of the selected network.
    pub fn rpc_url(&self) -> (r: &'static str)
        ensures
            self is Mainnet ==> r@ == "https://archival-rpc.mainnet.near.org"@,
            self is Testnet ==> r@ == "https://archival-rpc.testnet.near.org"@,
    {
        match self {
            NearNetworkKind::Mainnet => "https://archival-rpc.mainnet.near.org",
            NearNetworkKind::Testnet => "https://archival-rpc.testnet.near.org",
        }
    }
}

/// The REST sink's endpoint settings: host, port and basic-auth
/// credentials.
#[derive(Debug, Clone)]
pub struct RestConfig {
    pub host: String,
    pub port: u16,
    pub username: String,
    password: String,
}

/// Mathematical model of the REST settings.
pub struct RestConfigView {
    pub host: Seq<char>,
    pub port: u16,
    pub username: Seq<char>,
    pub password: Seq<char>,
}

impl View for RestConfig {
    type V = RestConfigView;

    closed spec fn view(&self) -> RestConfigView {
        RestConfigView {
            host: self.host@,
            port: self.port,
            username: self.username@,
            password: self.password@,
        }
    }
}

/// The base URL of the REST sink: the host, a colon, and the port in
/// decimal.
pub open spec fn spec_base_url(c: RestConfigView) -> Seq<char> {
    c.host + seq![':'] + spec_u64_dec(c.port as nat)
}

impl RestConfig {
    /// Builds the REST settings.
    pub fn new(host: String, port: u16, username: String, password: String) -> (r: RestConfig)
        ensures
            r@.host == host@,
            r@.port == port,
            r@.username == username@,
            r@.password == password@,
    {
        RestConfig { host, port, username, password }
    }

    /// The base URL requests are addressed to.
    pub fn base_url(&self) -> (r: String)
        ensures
            r@ == spec_base_url(self@),
    {
        let mut url = self.host.clone();
        url.append(":");
        proof {
            reveal_strlit(":");
            assert(":"@ =~= seq![':']);
        }
        let port_dec = u64_to_dec(self.port as u64);
        url.append(port_dec.as_str());
        url
    }

    /// The basic-auth user name.
    pub fn username(&self) -> (r: &str)
        ensures
            r@ == self@.username,
    {
        self.username.as_str()
    }

    /// The basic-auth password.
    pub fn password(&self) -> (r: &str)
        ensures
            r@ == self@.password,
    {
        self.password.as_str()
    }
}

/// The whole process configuration.
#[derive(Debug, Clone)]
pub struct AppConfig {
    pub contracts: ContractConfig,
    pub rest: RestConfig,
    pub network: NearNetworkKind,
    pub start_block_height: u64,
    pub start_from_last_block: bool,
}

/// The block height the stream starts from: the configured height, or
/// the chain's latest final height when the configuration asks to start
/// from the last block. The latest height itself comes from outside;
/// this decision is pure.
pub open spec fn spec_start_height(
    start_from_last_block: bool,
    configured: u64,
    latest_final: u64,
) -> u64 {
    if start_from_last_block {
        latest_final
    } else {
        configured
    }
}

/// Decides the starting block height from the configuration and the
/// chain's latest final height.
pub fn resolve_start_height(start_from_last_block: bool, configured: u64, latest_final: u64) -> (r:
    u64)
    ensures
        r == spec_start_height(start_from_last_block, configured, latest_final),
{
    if start_from_last_block {
        latest_final
    } else {
        configured
    }
}

} // verus!

//! Domain model: the typed events carried inside execution-outcome logs,
//! the execution outcomes themselves, and the blocks that contain them.
use vstd::prelude::*;

verus! {

/// The event standard named in an event log line.
#[derive(Debug, Clone, Copy, PartialEq, Eq, Structural)]
pub enum StandardKind {
    Nep171,
}

/// The event-format version named in an event log line.
#[derive(Debug, Clone, Copy, PartialEq, Eq, Structural)]
pub enum VersionKind {
    V1_0_0,
}

/// The kind of an NFT lifecycle event.
#[derive(Debug, Clone, Copy, PartialEq, Eq, Structural)]
pub enum NftEventKind {
    NftMint,
    NftBurn,
    AssembleNft,
    DisassembleNft,
}

/// One entry of an NFT event's `data` array.
#[derive(Debug, Clone)]
pub enum NftEventLogKind {
    NftMintLog { owner_id: String, token_ids: Vec<String>, memo: Option<String> },
}

/// Mathematical model of one `data` entry.
pub struct NftEventLogView {
    pub owner_id: Seq<char>,
    pub token_ids: Seq<Seq<char>>,
    pub memo: Option<Seq<char>>,
}

impl View for NftEventLogKind {
    type V = NftEventLogView;

    open spec fn view(&self) -> NftEventLogView {
        match self {
            NftEventLogKind::NftMintLog { owner_id, token_ids, memo } => NftEventLogView {
                owner_id: owner_id@,
                token_ids: token_ids@.map_values(|t: String| t@),
                memo: match memo {
                    Some(m) => Some(m@),
                    None => None,
                },
            },
        }
    }
}

/// A decoded NFT event, as carried after the sentinel prefix of a log line.
#[derive(Debug, Clone)]
pub struct NftEvent {
    pub standard: StandardKind,
    pub version: VersionKind,
    pub event: NftEventKind,
    pub data: Vec<NftEventLogKind>,
}

/// Mathematical model of a decoded NFT event.
pub struct NftEventView {
    pub standard: StandardKind,
    pub version: VersionKind,
    pub event: NftEventKind,
    pub data: Seq<NftEventLogView>,
}

impl View for NftEvent {
    type V = NftEventView;

    open spec fn view(&self) -> NftEventView {
        NftEventView {
            standard: self.standard,
            version: self.version,
            event: self.event,
            data: self.data@.map_values(|l: NftEventLogKind| l@),
        }
    }
}

/// The payload of a marketplace sale event.
#[derive(Debug, Clone)]
pub struct MarketSale {
    pub prev_owner: String,
    pub curr_owner: String,
    pub token_id: String,
    pub price: String,
}

/// Mathematical model of a sale payload.
pub struct MarketSaleView {
    pub prev_owner: Seq<char>,
    pub curr_owner: Seq<char>,
    pub token_id: Seq<char>,
    pub price: Seq<char>,
}

impl View for MarketSale {
    type V = MarketSaleView;

    open spec fn view(&self) -> MarketSaleView {
        MarketSaleView {
            prev_owner: self.prev_owner@,
            curr_owner: self.curr_owner@,
            token_id: self.token_id@,
            price: self.price@,
        }
    }
}

/// The payload of a marketplace bid or ask event.
#[derive(Debug, Clone)]
pub struct MarketOrder {
    pub account_id: String,
    pub token_id: String,
    pub price: String,
}

/// Mathematical model of a bid or ask payload.
pub struct MarketOrderView {
    pub account_id: Seq<char>,
    pub token_id: Seq<char>,
    pub price: Seq<char>,
}

impl View for MarketOrder {
    type V = MarketOrderView;

    open spec fn view(&self) -> MarketOrderView {
        MarketOrderView {
            account_id: self.account_id@,
            token_id: self.token_id@,
            price: self.price@,
        }
    }
}

/// A decoded marketplace event: a tagged union over the market domain.
#[derive(Debug, Clone)]
pub enum MarketEventKind {
    Sale(MarketSale),
    AddBid(MarketOrder),
    RemoveBid(MarketOrder),
    AddAsk(MarketOrder),
    RemoveAsk(MarketOrder),
}

/// Mathematical model of a decoded marketplace event.
pub enum MarketEventView {
    Sale(MarketSaleView),
    AddBid(MarketOrderView),
    RemoveBid(MarketOrderView),
    AddAsk(MarketOrderView),
    RemoveAsk(MarketOrderView),
}

impl View for MarketEventKind {
    type V = MarketEventView;

    open spec fn view(&self) -> MarketEventView {
        match self {
            MarketEventKind::Sale(s) => MarketEventView::Sale(s@),
            MarketEventKind::AddBid(b) => MarketEventView::AddBid(b@),
            MarketEventKind::RemoveBid(b) => MarketEventView::RemoveBid(b@),
            MarketEventKind::AddAsk(a) => MarketEventView::AddAsk(a@),
            MarketEventKind::RemoveAsk(a) => MarketEventView::RemoveAsk(a@),
        }
    }
}

/// A content hash as carried by token media fields.
#[derive(Debug, Clone)]
pub struct IpfsHash {
    pub hash: String,
}

impl View for IpfsHash {
    type V = Seq<char>;

    open spec fn view(&self) -> Seq<char> {
        self.hash@
    }
}

/// The execution status of one outcome: success carries an opaque payload,
/// base64-encoded as it arrives from the chain.
#[derive(Debug, Clone)]
pub enum OutcomeStatus {
    SuccessValue(String),
    Failure,
}

/// Mathematical model of an execution status.
pub enum OutcomeStatusView {
    SuccessValue(Seq<char>),
    Failure,
}

impl View for OutcomeStatus {
    type V = OutcomeStatusView;

    open spec fn view(&self) -> OutcomeStatusView {
        match self {
            OutcomeStatus::SuccessValue(v) => OutcomeStatusView::SuccessValue(v@),
            OutcomeStatus::Failure => OutcomeStatusView::Failure,
        }
    }
}

/// The result of executing one receipt: the receiving account, the log
/// lines it produced, and its execution status.
#[derive(Debug, Clone)]
pub struct ExecutionOutcome {
    pub receiver_id: String,
    pub logs: Vec<String>,
    pub status: OutcomeStatus,
}

/// Mathematical model of an execution outcome.
pub struct ExecutionOutcomeView {
    pub receiver_id: Seq<char>,
    pub logs: Seq<Seq<char>>,
    pub status: OutcomeStatusView,
}

impl View for ExecutionOutcome {
    type V = ExecutionOutcomeView;

    open spec fn view(&self) -> ExecutionOutcomeView {
        ExecutionOutcomeView {
            receiver_id: self.receiver_id@,
            logs: self.logs@.map_values(|l: String| l@),
            status: self.status@,
        }
    }
}

/// The sink-ready representation of one NFT token, decoded from the
/// opaque success payload of a mint or assemble outcome. The token's
/// `model` subtree is carried as its canonical JSON text.
#[derive(Debug, Clone)]
pub struct TokenRecord {
    pub token_id: String,
    pub owner_id: String,
    pub title: Option<String>,
    pub description: Option<String>,
    pub media: Option<String>,
    pub copies: Option<u64>,
    pub issued_at: Option<String>,
    pub expires_at: Option<String>,
    pub model_json: String,
}

/// Mathematical model of a token record.
pub struct TokenRecordView {
    pub token_id: Seq<char>,
    pub owner_id: Seq<char>,
    pub title: Option<Seq<char>>,
    pub description: Option<Seq<char>>,
    pub media: Option<Seq<char>>,
    pub copies: Option<u64>,
    pub issued_at: Option<Seq<char>>,
    pub expires_at: Option<Seq<char>>,
    pub model_json: Seq<char>,
}

pub open spec fn view_opt_text(o: Option<String>) -> Option<Seq<char>> {
    match o {
        Some(s) => Some(s@),
        None => None,
    }
}

impl View for TokenRecord {
    type V = TokenRecordView;

    open spec fn view(&self) -> TokenRecordView {
        TokenRecordView {
            token_id: self.token_id@,
            owner_id: self.owner_id@,
            title: view_opt_text(self.title),
            description: view_opt_text(self.description),
            media: view_opt_text(self.media),
            copies: self.copies,
            issued_at: view_opt_text(self.issued_at),
            expires_at: view_opt_text(self.expires_at),
            model_json: self.model_json@,
        }
    }
}

/// The sink-ready representation of one sale, its price at human scale.
#[derive(Debug, Clone)]
pub struct SaleRecord {
    pub prev_owner: String,
    pub curr_owner: String,
    pub token_id: String,
    pub price: String,
}

/// Mathematical model of a sale record.
pub struct SaleRecordView {
    pub prev_owner: Seq<char>,
    pub curr_owner: Seq<char>,
    pub token_id: Seq<char>,
    pub price: Seq<char>,
}

impl View for SaleRecord {
    type V = SaleRecordView;

    open spec fn view(&self) -> SaleRecordView {
        SaleRecordView {
            prev_owner: self.prev_owner@,
            curr_owner: self.curr_owner@,
            token_id: self.token_id@,
            price: self.price@,
        }
    }
}

/// The sink-ready representation of one bid or ask, its price at human
/// scale.
#[derive(Debug, Clone)]
pub struct OrderRecord {
    pub account_id: String,
    pub token_id: String,
    pub price: String,
}

/// Mathematical model of a bid or ask record.
pub struct OrderRecordView {
    pub account_id: Seq<char>,
    pub token_id: Seq<char>,
    pub price: Seq<char>,
}

impl View for OrderRecord {
    type V = OrderRecordView;

    open spec fn view(&self) -> OrderRecordView {
        OrderRecordView {
            account_id: self.account_id@,
            token_id: self.token_id@,
            price: self.price@,
        }
    }
}

/// The delivery-ready representation of one domain event: what is to be
/// stored, and whether it is a creation, an update, or a removal.
#[derive(Debug, Clone)]
pub enum CanonicalRecord {
    CreateToken(TokenRecord),
    UpdateToken(TokenRecord),
    NewSale(SaleRecord),
    NewBid(OrderRecord),
    DropBid(OrderRecord),
    NewAsk(OrderRecord),
    DropAsk(OrderRecord),
}

/// Mathematical model of a canonical record.
pub enum CanonicalRecordView {
    CreateToken(TokenRecordView),
    UpdateToken(TokenRecordView),
    NewSale(SaleRecordView),
    NewBid(OrderRecordView),
    DropBid(OrderRecordView),
    NewAsk(OrderRecordView),
    DropAsk(OrderRecordView),
}

impl View for CanonicalRecord {
    type V = CanonicalRecordView;

    open spec fn view(&self) -> CanonicalRecordView {
        match self {
            CanonicalRecord::CreateToken(t) => CanonicalRecordView::CreateToken(t@),
            CanonicalRecord::UpdateToken(t) => CanonicalRecordView::UpdateToken(t@),
            CanonicalRecord::NewSale(s) => CanonicalRecordView::NewSale(s@),
            CanonicalRecord::NewBid(o) => CanonicalRecordView::NewBid(o@),
            CanonicalRecord::DropBid(o) => CanonicalRecordView::DropBid(o@),
            CanonicalRecord::NewAsk(o) => CanonicalRecordView::NewAsk(o@),
            CanonicalRecord::DropAsk(o) => CanonicalRecordView::DropAsk(o@),
        }
    }
}

/// A partition of a block: an ordered run of execution outcomes.
#[derive(Debug, Clone)]
pub struct Shard {
    pub outcomes: Vec<ExecutionOutcome>,
}

impl View for Shard {
    type V = Seq<ExecutionOutcomeView>;

    open spec fn view(&self) -> Seq<ExecutionOutcomeView> {
        self.outcomes@.map_values(|o: ExecutionOutcome| o@)
    }
}

/// One finalized block: its height and its ordered shards.
#[derive(Debug, Clone)]
pub struct BlockMessage {
    pub height: u64,
    pub shards: Vec<Shard>,
}

/// Mathematical model of a block message.
pub struct BlockMessageView {
    pub height: u64,
    pub shards: Seq<Seq<ExecutionOutcomeView>>,
}

impl View for BlockMessage {
    type V = BlockMessageView;

    open spec fn view(&self) -> BlockMessageView {
        BlockMessageView { height: self.height, shards: self.shards@.map_values(|s: Shard| s@) }
    }
}

} // verus!

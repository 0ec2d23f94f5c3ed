//! The delivery boundary: request plans for the REST sink, response
//! classification, the per-record REST report, and the all-or-nothing
//! commit rule of the transactional SQL sink. The two sinks share one
//! contract surface — an ordered run of canonical records goes in, and
//! per-record or per-block outcomes come out — but their guarantees
//! differ on purpose: REST isolates failures per record, SQL commits a
//! block only as a whole.
use vstd::prelude::*;
use vstd::string::StringExecFns;

use crate::config::{spec_base_url, ContractConfig, ContractConfigView, RestConfig, RestConfigView};
use crate::json::{json_as_text, json_doc_of_text, json_get, json_rep, parse_json_text, JsonRep};
use crate::models::{CanonicalRecord, CanonicalRecordView};
use crate::serialize::{
    contracts_body, order_body, sale_body, spec_contracts_body, spec_order_body, spec_sale_body,
    spec_token_body, token_body,
};

verus! {

/// The request method a plan carries.
#[derive(Debug, Clone, Copy, PartialEq, Eq, Structural)]
pub enum HttpMethod {
    Post,
    Patch,
    Delete,
}

/// One planned REST request: method, full URL, and JSON body. The plan
/// is a pure value; issuing it is the caller's business.
#[derive(Debug, Clone)]
pub struct RequestPlan {
    pub method: HttpMethod,
    pub url: String,
    pub body: String,
}

/// Mathematical model of a request plan.
pub struct RequestPlanView {
    pub method: HttpMethod,
    pub url: Seq<char>,
    pub body: Seq<char>,
}

impl View for RequestPlan {
    type V = RequestPlanView;

    open spec fn view(&self) -> RequestPlanView {
        RequestPlanView { method: self.method, url: self.url@, body: self.body@ }
    }
}

/// The plan for one canonical record: a created token is posted, an
/// updated token is patched, sales and new bids or asks are posted, and
/// removed bids or asks are deleted, each at its own path.
#[verifier::opaque]
pub open spec fn spec_record_plan(r: CanonicalRecordView, rest: RestConfigView) -> RequestPlanView {
    match r {
        CanonicalRecordView::CreateToken(t) => RequestPlanView {
            method: HttpMethod::Post,
            url: spec_base_url(rest) + "/nft_tokens"@,
            body: spec_token_body(t),
        },
        CanonicalRecordView::UpdateToken(t) => RequestPlanView {
            method: HttpMethod::Patch,
            url: spec_base_url(rest) + "/nft_tokens"@,
            body: spec_token_body(t),
        },
        CanonicalRecordView::NewSale(s) => RequestPlanView {
            method: HttpMethod::Post,
            url: spec_base_url(rest) + "/sales"@,
            body: spec_sale_body(s),
        },
        CanonicalRecordView::NewBid(o) => RequestPlanView {
            method: HttpMethod::Post,
            url: spec_base_url(rest) + "/bids"@,
            body: spec_order_body(o),
        },
        CanonicalRecordView::DropBid(o) => RequestPlanView {
            method: HttpMethod::Delete,
            url: spec_base_url(rest) + "/bids"@,
            body: spec_order_body(o),
        },
        CanonicalRecordView::NewAsk(o) => RequestPlanView {
            method: HttpMethod::Post,
            url: spec_base_url(rest) + "/asks"@,
            body: spec_order_body(o),
        },
        CanonicalRecordView::DropAsk(o) => RequestPlanView {
            method: HttpMethod::Delete,
            url: spec_base_url(rest) + "/asks"@,
            body: spec_order_body(o),
        },
    }
}

/// Builds the REST request plan for one canonical record.
pub fn record_request_plan(r: &CanonicalRecord, rest: &RestConfig) -> (p: RequestPlan)
    ensures
        p@ == spec_record_plan(r@, rest@),
{
    proof {
        reveal(spec_record_plan);
    }
    match r {
        CanonicalRecord::CreateToken(t) => {
            let mut url = rest.base_url();
            url.append("/nft_tokens");
            RequestPlan { method: HttpMethod::Post, url, body: token_body(t) }
        },
        CanonicalRecord::UpdateToken(t) => {
            let mut url = rest.base_url();
            url.append("/nft_tokens");
            RequestPlan { method: HttpMethod::Patch, url, body: token_body(t) }
        },
        CanonicalRecord::NewSale(s) => {
            let mut url = rest.base_url();
            url.append("/sales");
            RequestPlan { method: HttpMethod::Post, url, body: sale_body(s) }
        },
        CanonicalRecord::NewBid(o) => {
            let mut url = rest.base_url();
            url.append("/bids");
            RequestPlan { method: HttpMethod::Post, url, body: order_body(o) }
        },
        CanonicalRecord::DropBid(o) => {
            let mut url = rest.base_url();
            url.append("/bids");
            RequestPlan { method: HttpMethod::Delete, url, body: order_body(o) }
        },
        CanonicalRecord::NewAsk(o) => {
            let mut url = rest.base_url();
            url.append("/asks");
            RequestPlan { method: HttpMethod::Post, url, body: order_body(o) }
        },
        CanonicalRecord::DropAsk(o) => {
            let mut url = rest.base_url();
            url.append("/asks");
            RequestPlan { method: HttpMethod::Delete, url, body: order_body(o) }
        },
    }
}

/// Builds the one-time startup request that registers the monitored
/// contract identities.
pub fn contracts_registration_plan(cfg: &ContractConfig, rest: &RestConfig) -> (p: RequestPlan)
    ensures
        p@.method == HttpMethod::Post,
        p@.url == spec_base_url(rest@) + "/contracts"@,
        p@.body == spec_contracts_body(cfg@),
{
    let (top, nft, market) = cfg.ids();
    let mut url = rest.base_url();
    url.append("/contracts");
    let body = contracts_body(top.as_str(), nft.as_str(), market.as_str());
    RequestPlan { method: HttpMethod::Post, url, body }
}

/// What one REST request came to: stored, or failed with the structured
/// error message the remote service returned, if it returned one.
#[derive(Debug, Clone)]
pub enum RecordOutcome {
    Stored,
    Failed(Option<String>),
}

/// Mathematical model of a per-record outcome.
pub enum RecordOutcomeView {
    Stored,
    Failed(Option<Seq<char>>),
}

impl View for RecordOutcome {
    type V = RecordOutcomeView;

    open spec fn view(&self) -> RecordOutcomeView {
        match self {
            RecordOutcome::Stored => RecordOutcomeView::Stored,
            RecordOutcome::Failed(m) => RecordOutcomeView::Failed(
                match m {
                    Some(s) => Some(s@),
                    None => None,
                },
            ),
        }
    }
}

/// The structured error message carried by a failure body, when the
/// body is a JSON object with a string `error` field.
pub open spec fn spec_error_message(body: Seq<char>) -> Option<Seq<char>> {
    match json_doc_of_text(body) {
        Some(JsonRep::Obj(m)) => if m.dom().contains("error"@) && m["error"@] is Text {
            Some(m["error"@]->Text_0)
        } else {
            None
        },
        _ => None,
    }
}

/// How one response is classified: any status in the 2xx range is
/// success; anything else is a failure carrying the structured error
/// message, if the body holds one.
pub open spec fn spec_classify_response(status: u16, body: Seq<char>) -> RecordOutcomeView {
    if 200 <= status && status < 300 {
        RecordOutcomeView::Stored
    } else {
        RecordOutcomeView::Failed(spec_error_message(body))
    }
}

/// Classifies one REST response.
pub fn classify_response(status: u16, body: &str) -> (r: RecordOutcome)
    ensures
        r@ == spec_classify_response(status, body@),
{
    if 200 <= status && status < 300 {
        return RecordOutcome::Stored;
    }
    let doc = match parse_json_text(body) {
        Some(d) => d,
        None => { return RecordOutcome::Failed(None) },
    };
    let err_field = match json_get(&doc, "error") {
        Some(x) => x,
        None => { return RecordOutcome::Failed(None) },
    };
    match json_as_text(err_field) {
        Some(t) => RecordOutcome::Failed(Some(t.to_owned())),
        None => RecordOutcome::Failed(None),
    }
}

/// The status and body one REST request came back with.
#[derive(Debug, Clone)]
pub struct HttpResponseData {
    pub status: u16,
    pub body: String,
}

/// Mathematical model of a response.
pub struct HttpResponseView {
    pub status: u16,
    pub body: Seq<char>,
}

impl View for HttpResponseData {
    type V = HttpResponseView;

    open spec fn view(&self) -> HttpResponseView {
        HttpResponseView { status: self.status, body: self.body@ }
    }
}

/// The REST sink's report for a run of requests: each response is
/// classified on its own.
pub open spec fn spec_rest_report(rs: Seq<HttpResponseView>) -> Seq<RecordOutcomeView> {
    rs.map_values(|r: HttpResponseView| spec_classify_response(r.status, r.body))
}

/// Classifies every response of a delivery run, one outcome per
/// request, independently.
pub fn rest_delivery_report(responses: &Vec<HttpResponseData>) -> (r: Vec<RecordOutcome>)
    ensures
        r@.len() == responses@.len(),
        r@.map_values(|o: RecordOutcome| o@) == spec_rest_report(
            responses@.map_values(|d: HttpResponseData| d@),
        ),
{
    let ghost views = responses@.map_values(|d: HttpResponseData| d@);
    let mut out: Vec<RecordOutcome> = Vec::new();
    let n = responses.len();
    #[verifier::loop_isolation(false)]
    for i in 0..n
        invariant
            n == responses@.len(),
            out@.len() == i,
            forall|k: int|
                0 <= k < i ==> (#[trigger] out@[k])@ == spec_classify_response(
                    views[k].status,
                    views[k].body,
                ),
    {
        let o = classify_response(responses[i].status, responses[i].body.as_str());
        out.push(o);
    }
    proof {
        assert(out@.map_values(|o: RecordOutcome| o@) =~= spec_rest_report(views));
    }
    out
}

/// Per-record isolation of the REST sink: every request is classified,
/// and a change in one response changes no other record's outcome.
pub proof fn lemma_rest_isolation(rs1: Seq<HttpResponseView>, rs2: Seq<HttpResponseView>, j: int)
    requires
        rs1.len() == rs2.len(),
        0 <= j < rs1.len(),
        forall|i: int| 0 <= i < rs1.len() && i != j ==> rs1[i] == rs2[i],
    ensures
        spec_rest_report(rs1).len() == rs1.len(),
        spec_rest_report(rs2).len() == rs2.len(),
        forall|i: int|
            0 <= i < rs1.len() && i != j ==> spec_rest_report(rs1)[i] == spec_rest_report(rs2)[i],
{
}

/// Whether every insert of a block's transaction succeeded.
pub open spec fn spec_sql_commits(results: Seq<bool>) -> bool {
    forall|i: int| 0 <= i < results.len() ==> results[i]
}

/// What the transactional sink persists for one block: every record
/// when every insert succeeded, nothing otherwise.
pub open spec fn spec_sql_persisted(
    records: Seq<CanonicalRecordView>,
    results: Seq<bool>,
) -> Seq<CanonicalRecordView> {
    if results.len() == records.len() && spec_sql_commits(results) {
        records
    } else {
        Seq::empty()
    }
}

/// Decides whether a block's transaction commits: only when every
/// insert succeeded.
pub fn sql_block_commits(results: &Vec<bool>) -> (r: bool)
    ensures
        r == spec_sql_commits(results@),
{
    let n = results.len();
    for i in 0..n
        invariant
            n == results@.len(),
            forall|k: int| 0 <= k < i ==> results@[k],
    {
        if !results[i] {
            return false;
        }
    }
    true
}

/// Block-level atomicity of the SQL sink: one failed insert rolls the
/// whole block back — no record of the block is persisted, earlier and
/// later ones alike, and the block reports as failed.
pub proof fn lemma_sql_block_atomic(
    records: Seq<CanonicalRecordView>,
    results: Seq<bool>,
    i: int,
)
    requires
        records.len() == results.len(),
        0 <= i < results.len(),
        !results[i],
    ensures
        !spec_sql_commits(results),
        spec_sql_persisted(records, results) == Seq::<CanonicalRecordView>::empty(),
{
    assert(spec_sql_persisted(records, results) =~= Seq::<CanonicalRecordView>::empty());
}

} // verus!

//! The pipeline proper: routing one execution outcome to its domain
//! handler, extracting and transforming its events, and planning the
//! delivery of the resulting records — then the same lifted to shards
//! and whole blocks. Everything here is a pure function of the inputs;
//! issuing the planned requests is the caller's business.
use vstd::prelude::*;

use crate::config::{
    spec_route, ContractConfig, ContractConfigView, RestConfig, RestConfigView, Route,
};
use crate::extract::{
    extract_market_events, extract_nft_events, spec_market_diags, spec_market_events,
    spec_nft_diags, spec_nft_events, ExtractDiag,
};
use crate::models::{
    BlockMessage, CanonicalRecord, CanonicalRecordView, ExecutionOutcome, ExecutionOutcomeView,
    MarketEventKind, MarketEventView, NftEvent, NftEventView, OutcomeStatus, OutcomeStatusView,
    Shard,
};
use crate::sink::{record_request_plan, spec_record_plan, RequestPlan, RequestPlanView};
use crate::transform::{
    spec_transform_market, spec_transform_nft, transform_market_event, transform_nft_event,
    TransformError,
};

verus! {

/// What processing one outcome (or shard, or block) yields: the planned
/// requests for every record, the extraction diagnostics, and the
/// transformation errors — the latter two reported and survived.
pub struct OutcomeWork {
    pub plans: Vec<RequestPlan>,
    pub extract_diags: Vec<ExtractDiag>,
    pub transform_errors: Vec<TransformError>,
}

/// What the NFT events of one outcome plan and report: each event
/// transforms into records (one plan each, in order) or into one
/// reported error.
pub open spec fn spec_nft_work(
    events: Seq<NftEventView>,
    status: OutcomeStatusView,
    rest: RestConfigView,
) -> (Seq<RequestPlanView>, Seq<TransformError>)
    decreases events.len(),
{
    if events.len() == 0 {
        (Seq::empty(), Seq::empty())
    } else {
        let w = spec_nft_work(events.drop_last(), status, rest);
        match spec_transform_nft(events.last(), status) {
            Ok(records) => (
                w.0 + records.map_values(|c: CanonicalRecordView| spec_record_plan(c, rest)),
                w.1,
            ),
            Err(e) => (w.0, w.1.push(e)),
        }
    }
}

/// What the market events of one outcome plan and report.
pub open spec fn spec_market_work(events: Seq<MarketEventView>, rest: RestConfigView) -> (
    Seq<RequestPlanView>,
    Seq<TransformError>,
)
    decreases events.len(),
{
    if events.len() == 0 {
        (Seq::empty(), Seq::empty())
    } else {
        let w = spec_market_work(events.drop_last(), rest);
        match spec_transform_market(events.last()) {
            Ok(rec) => (w.0.push(spec_record_plan(rec, rest)), w.1),
            Err(e) => (w.0, w.1.push(e)),
        }
    }
}

/// What processing one outcome yields: nothing at all for an outcome of
/// a non-monitored account, otherwise the routed domain's plans and
/// reports.
pub open spec fn spec_outcome_work(
    cfg: ContractConfigView,
    rest: RestConfigView,
    o: ExecutionOutcomeView,
) -> (Seq<RequestPlanView>, Seq<ExtractDiag>, Seq<TransformError>) {
    match spec_route(cfg, o.receiver_id) {
        Route::NftPath => {
            let w = spec_nft_work(spec_nft_events(o.logs), o.status, rest);
            (w.0, spec_nft_diags(o.logs), w.1)
        },
        Route::MarketPath => {
            let w = spec_market_work(spec_market_events(o.logs), rest);
            (w.0, spec_market_diags(o.logs), w.1)
        },
        Route::Skip => (Seq::empty(), Seq::empty(), Seq::empty()),
    }
}

/// Appends one plan per record, in record order.
fn plan_records(records: &Vec<CanonicalRecord>, rest: &RestConfig, plans: &mut Vec<RequestPlan>)
    ensures
        final(plans)@.map_values(|p: RequestPlan| p@) == old(plans)@.map_values(
            |p: RequestPlan| p@,
        ) + records@.map_values(|c: CanonicalRecord| spec_record_plan(c@, rest@)),
{
    let ghost base = plans@.map_values(|p: RequestPlan| p@);
    let m = records.len();
    #[verifier::loop_isolation(false)]
    for j in 0..m
        invariant
            m == records@.len(),
            plans@.map_values(|p: RequestPlan| p@) == base + records@.take(j as int).map_values(
                |c: CanonicalRecord| spec_record_plan(c@, rest@),
            ),
    {
        let p = record_request_plan(&records[j], rest);
        let ghost pre_plans = plans@;
        plans.push(p);
        proof {
            assert(plans@ == pre_plans.push(p));
            assert(plans@.map_values(|p: RequestPlan| p@) =~= pre_plans.map_values(
                |p: RequestPlan| p@,
            ).push(p@));
            assert(records@.take(j + 1).drop_last() =~= records@.take(j as int));
            assert(records@.take(j + 1).last() == records@[j as int]);
            assert(records@.take(j + 1).map_values(
                |c: CanonicalRecord| spec_record_plan(c@, rest@),
            ) =~= records@.take(j as int).map_values(
                |c: CanonicalRecord| spec_record_plan(c@, rest@),
            ).push(spec_record_plan(records@[j as int]@, rest@)));
            assert(base + records@.take(j + 1).map_values(
                |c: CanonicalRecord| spec_record_plan(c@, rest@),
            ) =~= (base + records@.take(j as int).map_values(
                |c: CanonicalRecord| spec_record_plan(c@, rest@),
            )).push(spec_record_plan(records@[j as int]@, rest@)));
        }
    }
    proof {
        assert(records@.take(m as int) =~= records@);
    }
}

/// Transforms each NFT event and plans its records.
fn plan_nft_events(events: &Vec<NftEvent>, status: &OutcomeStatus, rest: &RestConfig) -> (r: (
    Vec<RequestPlan>,
    Vec<TransformError>,
))
    ensures
        r.0@.map_values(|p: RequestPlan| p@) == spec_nft_work(
            events@.map_values(|e: NftEvent| e@),
            status@,
            rest@,
        ).0,
        r.1@ == spec_nft_work(events@.map_values(|e: NftEvent| e@), status@, rest@).1,
{
    let ghost eviews = events@.map_values(|e: NftEvent| e@);
    let mut plans: Vec<RequestPlan> = Vec::new();
    let mut errs: Vec<TransformError> = Vec::new();
    let n = events.len();
    #[verifier::loop_isolation(false)]
    for i in 0..n
        invariant
            n == events@.len(),
            plans@.map_values(|p: RequestPlan| p@) == spec_nft_work(
                eviews.take(i as int),
                status@,
                rest@,
            ).0,
            errs@ == spec_nft_work(eviews.take(i as int), status@, rest@).1,
    {
        proof {
            assert(eviews.take(i + 1).drop_last() =~= eviews.take(i as int));
            assert(eviews.take(i + 1).last() == eviews[i as int]);
            assert(eviews[i as int] == events@[i as int]@);
        }
        match transform_nft_event(&events[i], status) {
            Ok(records) => {
                plan_records(&records, rest, &mut plans);
                proof {
                    assert(records@.map_values(|c: CanonicalRecord| spec_record_plan(c@, rest@))
                        =~= records@.map_values(|c: CanonicalRecord| c@).map_values(
                        |c: CanonicalRecordView| spec_record_plan(c, rest@),
                    ));
                }
            },
            Err(e) => {
                errs.push(e);
            },
        }
    }
    proof {
        assert(eviews.take(n as int) =~= eviews);
    }
    (plans, errs)
}

/// Transforms each market event and plans its record.
fn plan_market_events(events: &Vec<MarketEventKind>, rest: &RestConfig) -> (r: (
    Vec<RequestPlan>,
    Vec<TransformError>,
))
    ensures
        r.0@.map_values(|p: RequestPlan| p@) == spec_market_work(
            events@.map_values(|e: MarketEventKind| e@),
            rest@,
        ).0,
        r.1@ == spec_market_work(events@.map_values(|e: MarketEventKind| e@), rest@).1,
{
    let ghost eviews = events@.map_values(|e: MarketEventKind| e@);
    let mut plans: Vec<RequestPlan> = Vec::new();
    let mut errs: Vec<TransformError> = Vec::new();
    let n = events.len();
    #[verifier::loop_isolation(false)]
    for i in 0..n
        invariant
            n == events@.len(),
            plans@.map_values(|p: RequestPlan| p@) == spec_market_work(
                eviews.take(i as int),
                rest@,
            ).0,
            errs@ == spec_market_work(eviews.take(i as int), rest@).1,
    {
        proof {
            assert(eviews.take(i + 1).drop_last() =~= eviews.take(i as int));
            assert(eviews.take(i + 1).last() == eviews[i as int]);
            assert(eviews[i as int] == events@[i as int]@);
        }
        match transform_market_event(&events[i]) {
            Ok(rec) => {
                let p = record_request_plan(&rec, rest);
                plans.push(p);
                proof {
                    assert(plans@.map_values(|p: RequestPlan| p@) =~= plans@.drop_last().map_values(
                        |p: RequestPlan| p@,
                    ).push(plans@.last()@));
                }
            },
            Err(e) => {
                errs.push(e);
            },
        }
    }
    proof {
        assert(eviews.take(n as int) =~= eviews);
    }
    (plans, errs)
}

/// Routes one outcome and plans the delivery of everything its logs
/// carry.
pub fn process_outcome(cfg: &ContractConfig, rest: &RestConfig, outcome: &ExecutionOutcome) -> (w:
    OutcomeWork)
    ensures
        w.plans@.map_values(|p: RequestPlan| p@) == spec_outcome_work(cfg@, rest@, outcome@).0,
        w.extract_diags@ == spec_outcome_work(cfg@, rest@, outcome@).1,
        w.transform_errors@ == spec_outcome_work(cfg@, rest@, outcome@).2,
{
    match cfg.route(outcome.receiver_id.as_str()) {
        Route::Skip => {
            let w = OutcomeWork {
                plans: Vec::new(),
                extract_diags: Vec::new(),
                transform_errors: Vec::new(),
            };
            proof {
                assert(w.plans@.map_values(|p: RequestPlan| p@) =~= spec_outcome_work(
                    cfg@,
                    rest@,
                    outcome@,
                ).0);
            }
            w
        },
        Route::NftPath => {
            let ex = extract_nft_events(&outcome.logs);
            let (plans, errs) = plan_nft_events(&ex.events, &outcome.status, rest);
            OutcomeWork { plans, extract_diags: ex.diags, transform_errors: errs }
        },
        Route::MarketPath => {
            let ex = extract_market_events(&outcome.logs);
            let (plans, errs) = plan_market_events(&ex.events, rest);
            OutcomeWork { plans, extract_diags: ex.diags, transform_errors: errs }
        },
    }
}

/// An outcome of a non-monitored account contributes nothing: no plan,
/// no diagnostic, no error — extraction is not even consulted.
pub proof fn lemma_unmonitored_outcome_no_work(
    cfg: ContractConfigView,
    rest: RestConfigView,
    o: ExecutionOutcomeView,
)
    requires
        o.receiver_id != cfg.nft_contract_id,
        o.receiver_id != cfg.market_contract_id,
    ensures
        spec_outcome_work(cfg, rest, o).0 == Seq::<RequestPlanView>::empty(),
        spec_outcome_work(cfg, rest, o).1 == Seq::<ExtractDiag>::empty(),
        spec_outcome_work(cfg, rest, o).2 == Seq::<TransformError>::empty(),
{
}

/// What processing a run of outcomes yields: each outcome's work, in
/// order.
pub open spec fn spec_outcomes_work(
    cfg: ContractConfigView,
    rest: RestConfigView,
    outcomes: Seq<ExecutionOutcomeView>,
) -> (Seq<RequestPlanView>, Seq<ExtractDiag>, Seq<TransformError>)
    decreases outcomes.len(),
{
    if outcomes.len() == 0 {
        (Seq::empty(), Seq::empty(), Seq::empty())
    } else {
        let w = spec_outcomes_work(cfg, rest, outcomes.drop_last());
        let o = spec_outcome_work(cfg, rest, outcomes.last());
        (w.0 + o.0, w.1 + o.1, w.2 + o.2)
    }
}

/// Processes every outcome of one shard, in order.
pub fn process_shard(cfg: &ContractConfig, rest: &RestConfig, shard: &Shard) -> (w: OutcomeWork)
    ensures
        w.plans@.map_values(|p: RequestPlan| p@) == spec_outcomes_work(cfg@, rest@, shard@).0,
        w.extract_diags@ == spec_outcomes_work(cfg@, rest@, shard@).1,
        w.transform_errors@ == spec_outcomes_work(cfg@, rest@, shard@).2,
{
    let ghost oviews = shard.outcomes@.map_values(|o: ExecutionOutcome| o@);
    let mut plans: Vec<RequestPlan> = Vec::new();
    let mut extract_diags: Vec<ExtractDiag> = Vec::new();
    let mut transform_errors: Vec<TransformError> = Vec::new();
    let n = shard.outcomes.len();
    #[verifier::loop_isolation(false)]
    for i in 0..n
        invariant
            n == shard.outcomes@.len(),
            plans@.map_values(|p: RequestPlan| p@) == spec_outcomes_work(
                cfg@,
                rest@,
                oviews.take(i as int),
            ).0,
            extract_diags@ == spec_outcomes_work(cfg@, rest@, oviews.take(i as int)).1,
            transform_errors@ == spec_outcomes_work(cfg@, rest@, oviews.take(i as int)).2,
    {
        proof {
            assert(oviews.take(i + 1).drop_last() =~= oviews.take(i as int));
            assert(oviews.take(i + 1).last() == oviews[i as int]);
            assert(oviews[i as int] == shard.outcomes@[i as int]@);
        }
        let ghost pre_plans = plans@.map_values(|p: RequestPlan| p@);
        let mut ow = process_outcome(cfg, rest, &shard.outcomes[i]);
        let ghost ow_plans = ow.plans@.map_values(|p: RequestPlan| p@);
        plans.append(&mut ow.plans);
        extract_diags.append(&mut ow.extract_diags);
        transform_errors.append(&mut ow.transform_errors);
        proof {
            assert(plans@.map_values(|p: RequestPlan| p@) =~= pre_plans + ow_plans);
        }
    }
    proof {
        assert(oviews.take(n as int) =~= oviews);
        assert(oviews == shard@);
    }
    OutcomeWork { plans, extract_diags, transform_errors }
}

/// What processing a whole block yields: each shard's work, in shard
/// order.
pub open spec fn spec_block_work(
    cfg: ContractConfigView,
    rest: RestConfigView,
    shards: Seq<Seq<ExecutionOutcomeView>>,
) -> (Seq<RequestPlanView>, Seq<ExtractDiag>, Seq<TransformError>)
    decreases shards.len(),
{
    if shards.len() == 0 {
        (Seq::empty(), Seq::empty(), Seq::empty())
    } else {
        let w = spec_block_work(cfg, rest, shards.drop_last());
        let s = spec_outcomes_work(cfg, rest, shards.last());
        (w.0 + s.0, w.1 + s.1, w.2 + s.2)
    }
}

/// Processes every shard of one block, in order: the block's whole
/// delivery plan and its reports.
pub fn process_block(cfg: &ContractConfig, rest: &RestConfig, block: &BlockMessage) -> (w:
    OutcomeWork)
    ensures
        w.plans@.map_values(|p: RequestPlan| p@) == spec_block_work(cfg@, rest@, block@.shards).0,
        w.extract_diags@ == spec_block_work(cfg@, rest@, block@.shards).1,
        w.transform_errors@ == spec_block_work(cfg@, rest@, block@.shards).2,
{
    let ghost sviews = block.shards@.map_values(|s: Shard| s@);
    let mut plans: Vec<RequestPlan> = Vec::new();
    let mut extract_diags: Vec<ExtractDiag> = Vec::new();
    let mut transform_errors: Vec<TransformError> = Vec::new();
    let n = block.shards.len();
    #[verifier::loop_isolation(false)]
    for i in 0..n
        invariant
            n == block.shards@.len(),
            plans@.map_values(|p: RequestPlan| p@) == spec_block_work(
                cfg@,
                rest@,
                sviews.take(i as int),
            ).0,
            extract_diags@ == spec_block_work(cfg@, rest@, sviews.take(i as int)).1,
            transform_errors@ == spec_block_work(cfg@, rest@, sviews.take(i as int)).2,
    {
        proof {
            assert(sviews.take(i + 1).drop_last() =~= sviews.take(i as int));
            assert(sviews.take(i + 1).last() == sviews[i as int]);
            assert(sviews[i as int] == block.shards@[i as int]@);
        }
        let ghost pre_plans = plans@.map_values(|p: RequestPlan| p@);
        let mut sw = process_shard(cfg, rest, &block.shards[i]);
        let ghost sw_plans = sw.plans@.map_values(|p: RequestPlan| p@);
        plans.append(&mut sw.plans);
        extract_diags.append(&mut sw.extract_diags);
        transform_errors.append(&mut sw.transform_errors);
        proof {
            assert(plans@.map_values(|p: RequestPlan| p@) =~= pre_plans + sw_plans);
        }
    }
    proof {
        assert(sviews.take(n as int) =~= sviews);
        assert(sviews == block@.shards);
    }
    OutcomeWork { plans, extract_diags, transform_errors }
}

} // verus!

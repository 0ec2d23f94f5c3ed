//! Event transformation: a decoded domain event plus its source
//! outcome's status become zero or more canonical records. Mint and
//! assemble events open the outcome's opaque success payload — base64,
//! then JSON, then the token shape — and a failure at any step drops the
//! event with a typed error, never a panic. The whole step is a pure
//! function of the event and the status.
use vstd::prelude::*;

use crate::codec::{base64_decode, base64_decoded};
use crate::json::{
    json_as_array, json_as_text, json_as_u64, json_doc_of_bytes, json_get, json_is_null,
    json_is_object, json_rep, json_text_of, json_to_text, parse_json_bytes, JsonRep,
};
use crate::models::{
    view_opt_text, CanonicalRecord, CanonicalRecordView, MarketEventKind, MarketEventView,
    NftEvent, NftEventKind, NftEventView, OrderRecord, OrderRecordView, OutcomeStatus,
    OutcomeStatusView, SaleRecord, SaleRecordView, TokenRecord, TokenRecordView,
};
use crate::price::{normalize_price, spec_normalize_price};

verus! {

/// Why a domain event could not be transformed into canonical records.
#[derive(Debug, Clone, Copy, PartialEq, Eq, Structural)]
pub enum TransformError {
    /// The event kind needs the opaque success payload, but the outcome
    /// did not succeed.
    NotSuccessStatus,
    /// The success payload is not valid base64.
    PayloadNotBase64,
    /// The decoded payload is not valid JSON.
    PayloadNotJson,
    /// The payload JSON fits no token shape.
    PayloadWrongShape,
    /// A price field is not a well-formed decimal string.
    PriceInvalid,
    /// A recognized event kind this pipeline does not yet handle.
    NotImplemented,
}

/// An optional string field of an object: absent or null is `None`, a
/// string is `Some`, anything else rejects the shape.
pub open spec fn spec_opt_text(m: Map<Seq<char>, JsonRep>, key: Seq<char>) -> Option<
    Option<Seq<char>>,
> {
    if !m.dom().contains(key) {
        Some(None)
    } else {
        match m[key] {
            JsonRep::Null => Some(None),
            JsonRep::Text(t) => Some(Some(t)),
            _ => None,
        }
    }
}

/// An optional unsigned-integer field of an object.
pub open spec fn spec_opt_u64(m: Map<Seq<char>, JsonRep>, key: Seq<char>) -> Option<Option<u64>> {
    if !m.dom().contains(key) {
        Some(None)
    } else {
        match m[key] {
            JsonRep::Null => Some(None),
            JsonRep::UNum(n) => Some(Some(n)),
            _ => None,
        }
    }
}

/// Decodes the token shape: `token_id`, `owner_id`, an object
/// `metadata` with optional descriptive fields, and a required `model`
/// subtree carried on as its canonical JSON text.
pub open spec fn spec_decode_token(j: JsonRep) -> Option<TokenRecordView> {
    match j {
        JsonRep::Obj(m) => {
            if !(m.dom().contains("token_id"@) && m["token_id"@] is Text) {
                None
            } else if !(m.dom().contains("owner_id"@) && m["owner_id"@] is Text) {
                None
            } else if !(m.dom().contains("metadata"@) && m["metadata"@] is Obj) {
                None
            } else if !m.dom().contains("model"@) {
                None
            } else {
                let mt = m["metadata"@]->Obj_0;
                match (
                    spec_opt_text(mt, "title"@),
                    spec_opt_text(mt, "description"@),
                    spec_opt_text(mt, "media"@),
                    spec_opt_u64(mt, "copies"@),
                    spec_opt_text(mt, "issued_at"@),
                    spec_opt_text(mt, "expires_at"@),
                ) {
                    (
                        Some(title),
                        Some(description),
                        Some(media),
                        Some(copies),
                        Some(issued_at),
                        Some(expires_at),
                    ) => Some(
                        TokenRecordView {
                            token_id: m["token_id"@]->Text_0,
                            owner_id: m["owner_id"@]->Text_0,
                            title,
                            description,
                            media,
                            copies,
                            issued_at,
                            expires_at,
                            model_json: json_text_of(m["model"@]),
                        },
                    ),
                    _ => None,
                }
            }
        },
        _ => None,
    }
}

/// Decodes a sequence of token shapes.
pub open spec fn spec_decode_token_list(s: Seq<JsonRep>) -> Option<Seq<TokenRecordView>>
    decreases s.len(),
{
    if s.len() == 0 {
        Some(Seq::empty())
    } else {
        match (spec_decode_token_list(s.drop_last()), spec_decode_token(s.last())) {
            (Some(rest), Some(t)) => Some(rest.push(t)),
            _ => None,
        }
    }
}

/// Decodes the one-or-many token payload: a JSON array is a batch of
/// tokens, anything else must be a single token, normalized to a list.
pub open spec fn spec_decode_tokens(j: JsonRep) -> Option<Seq<TokenRecordView>> {
    match j {
        JsonRep::Arr(s) => spec_decode_token_list(s),
        _ => match spec_decode_token(j) {
            Some(t) => Some(seq![t]),
            None => None,
        },
    }
}

fn get_opt_text(v: &serde_json::Value, key: &str) -> (r: Result<Option<String>, ()>)
    requires
        json_rep(*v) is Obj,
    ensures
        match r {
            Ok(o) => spec_opt_text(json_rep(*v)->Obj_0, key@) == Some(view_opt_text(o)),
            Err(_) => spec_opt_text(json_rep(*v)->Obj_0, key@) is None,
        },
{
    match json_get(v, key) {
        None => Ok(None),
        Some(x) => {
            if json_is_null(x) {
                Ok(None)
            } else {
                match json_as_text(x) {
                    Some(t) => Ok(Some(t.to_owned())),
                    None => Err(()),
                }
            }
        },
    }
}

fn get_opt_u64(v: &serde_json::Value, key: &str) -> (r: Result<Option<u64>, ()>)
    requires
        json_rep(*v) is Obj,
    ensures
        match r {
            Ok(o) => spec_opt_u64(json_rep(*v)->Obj_0, key@) == Some(o),
            Err(_) => spec_opt_u64(json_rep(*v)->Obj_0, key@) is None,
        },
{
    match json_get(v, key) {
        None => Ok(None),
        Some(x) => {
            if json_is_null(x) {
                Ok(None)
            } else {
                match json_as_u64(x) {
                    Some(n) => Ok(Some(n)),
                    None => Err(()),
                }
            }
        },
    }
}

/// Decodes one token shape from a parsed payload document.
fn decode_token(v: &serde_json::Value) -> (r: Option<TokenRecord>)
    ensures
        match r {
            Some(t) => spec_decode_token(json_rep(*v)) == Some(t@),
            None => spec_decode_token(json_rep(*v)) is None,
        },
{
    let tok = match json_get(v, "token_id") {
        Some(x) => x,
        None => { return None },
    };
    let tok_s = match json_as_text(tok) {
        Some(t) => t,
        None => { return None },
    };
    let owner = match json_get(v, "owner_id") {
        Some(x) => x,
        None => { return None },
    };
    let owner_s = match json_as_text(owner) {
        Some(t) => t,
        None => { return None },
    };
    let md = match json_get(v, "metadata") {
        Some(x) => x,
        None => { return None },
    };
    if !json_is_object(md) {
        return None;
    }
    let title = match get_opt_text(md, "title") {
        Ok(o) => o,
        Err(_) => { return None },
    };
    let description = match get_opt_text(md, "description") {
        Ok(o) => o,
        Err(_) => { return None },
    };
    let media = match get_opt_text(md, "media") {
        Ok(o) => o,
        Err(_) => { return None },
    };
    let copies = match get_opt_u64(md, "copies") {
        Ok(o) => o,
        Err(_) => { return None },
    };
    let issued_at = match get_opt_text(md, "issued_at") {
        Ok(o) => o,
        Err(_) => { return None },
    };
    let expires_at = match get_opt_text(md, "expires_at") {
        Ok(o) => o,
        Err(_) => { return None },
    };
    let model_field = match json_get(v, "model") {
        Some(x) => x,
        None => { return None },
    };
    let model_json = json_to_text(model_field);
    Some(
        TokenRecord {
            token_id: tok_s.to_owned(),
            owner_id: owner_s.to_owned(),
            title,
            description,
            media,
            copies,
            issued_at,
            expires_at,
            model_json,
        },
    )
}

proof fn lemma_decode_token_list_fail(s: Seq<JsonRep>, i: int)
    requires
        0 <= i < s.len(),
        spec_decode_token(s[i]) is None,
    ensures
        spec_decode_token_list(s) is None,
    decreases s.len(),
{
    if i < s.len() - 1 {
        lemma_decode_token_list_fail(s.drop_last(), i);
    }
}

/// Decodes the one-or-many token payload from a parsed document.
fn decode_tokens(v: &serde_json::Value) -> (r: Option<Vec<TokenRecord>>)
    ensures
        match r {
            Some(ts) => spec_decode_tokens(json_rep(*v)) == Some(
                ts@.map_values(|t: TokenRecord| t@),
            ),
            None => spec_decode_tokens(json_rep(*v)) is None,
        },
{
    match json_as_array(v) {
        Some(a) => {
            let ghost reps = json_rep(*v)->Arr_0;
            let mut out: Vec<TokenRecord> = Vec::new();
            let n = a.len();
            #[verifier::loop_isolation(false)]
            for i in 0..n
                invariant
                    n == a@.len(),
                    a@.len() == reps.len(),
                    forall|k: int| 0 <= k < reps.len() ==> json_rep(#[trigger] a@[k]) == reps[k],
                    spec_decode_token_list(reps.take(i as int)) == Some(
                        out@.map_values(|t: TokenRecord| t@),
                    ),
            {
                let t = match decode_token(&a[i]) {
                    Some(t) => t,
                    None => {
                        proof {
                            lemma_decode_token_list_fail(reps, i as int);
                        }
                        return None;
                    },
                };
                out.push(t);
                proof {
                    assert(reps.take(i + 1).drop_last() =~= reps.take(i as int));
                    assert(reps.take(i + 1).last() == reps[i as int]);
                    assert(out@.map_values(|t: TokenRecord| t@) =~= out@.drop_last().map_values(
                        |t: TokenRecord| t@,
                    ).push(out@.last()@));
                }
            }
            proof {
                assert(reps.take(n as int) =~= reps);
            }
            Some(out)
        },
        None => {
            match decode_token(v) {
                Some(t) => {
                    let mut out: Vec<TokenRecord> = Vec::new();
                    out.push(t);
                    proof {
                        assert(out@.map_values(|t: TokenRecord| t@) =~= seq![out@[0]@]);
                    }
                    Some(out)
                },
                None => None,
            }
        },
    }
}

/// What the transformer makes of an NFT event and its outcome status.
pub open spec fn spec_transform_nft(e: NftEventView, status: OutcomeStatusView) -> Result<
    Seq<CanonicalRecordView>,
    TransformError,
> {
    match e.event {
        NftEventKind::NftMint => match status {
            OutcomeStatusView::Failure => Err(TransformError::NotSuccessStatus),
            OutcomeStatusView::SuccessValue(b64) => match base64_decoded(b64) {
                None => Err(TransformError::PayloadNotBase64),
                Some(bytes) => match json_doc_of_bytes(bytes) {
                    None => Err(TransformError::PayloadNotJson),
                    Some(j) => match spec_decode_tokens(j) {
                        None => Err(TransformError::PayloadWrongShape),
                        Some(ts) => Ok(
                            ts.map_values(|t: TokenRecordView| CanonicalRecordView::CreateToken(t)),
                        ),
                    },
                },
            },
        },
        NftEventKind::AssembleNft | NftEventKind::DisassembleNft => match status {
            OutcomeStatusView::Failure => Err(TransformError::NotSuccessStatus),
            OutcomeStatusView::SuccessValue(b64) => match base64_decoded(b64) {
                None => Err(TransformError::PayloadNotBase64),
                Some(bytes) => match json_doc_of_bytes(bytes) {
                    None => Err(TransformError::PayloadNotJson),
                    Some(j) => match spec_decode_token(j) {
                        None => Err(TransformError::PayloadWrongShape),
                        Some(t) => Ok(seq![CanonicalRecordView::UpdateToken(t)]),
                    },
                },
            },
        },
        NftEventKind::NftBurn => Err(TransformError::NotImplemented),
    }
}

/// Transforms an NFT event and its outcome status into canonical
/// records: a mint batches one or many created tokens, an assemble or
/// disassemble updates one token, a burn is reported as not yet
/// implemented. The result is exactly what `spec_transform_nft` says.
pub fn transform_nft_event(e: &NftEvent, status: &OutcomeStatus) -> (r: Result<
    Vec<CanonicalRecord>,
    TransformError,
>)
    ensures
        match r {
            Ok(rs) => spec_transform_nft(e@, status@) == Ok::<_, TransformError>(
                rs@.map_values(|c: CanonicalRecord| c@),
            ),
            Err(err) => spec_transform_nft(e@, status@) == Err::<Seq<CanonicalRecordView>, _>(
                err,
            ),
        },
{
    match e.event {
        NftEventKind::NftBurn => Err(TransformError::NotImplemented),
        NftEventKind::NftMint => {
            let b64 = match &status {
                OutcomeStatus::SuccessValue(v) => v,
                OutcomeStatus::Failure => { return Err(TransformError::NotSuccessStatus) },
            };
            let bytes = match base64_decode(b64.as_str()) {
                Some(b) => b,
                None => { return Err(TransformError::PayloadNotBase64) },
            };
            let doc = match parse_json_bytes(bytes.as_slice()) {
                Some(d) => d,
                None => { return Err(TransformError::PayloadNotJson) },
            };
            let mut tokens = match decode_tokens(&doc) {
                Some(ts) => ts,
                None => { return Err(TransformError::PayloadWrongShape) },
            };
            let ghost tviews = tokens@.map_values(|t: TokenRecord| t@);
            let mut out: Vec<CanonicalRecord> = Vec::new();
            #[verifier::loop_isolation(false)]
            while tokens.len() > 0
                invariant
                    out@.len() + tokens@.len() == tviews.len(),
                    forall|ii: int|
                        0 <= ii < tokens@.len() ==> (#[trigger] tokens@[ii])@ == tviews[out@.len()
                            + ii],
                    forall|ii: int|
                        0 <= ii < out@.len() ==> (#[trigger] out@[ii])@
                            == CanonicalRecordView::CreateToken(tviews[ii]),
                decreases tokens@.len(),
            {
                let ghost pre = tokens@;
                let ghost k = out@.len() as int;
                let t = tokens.remove(0);
                proof {
                    assert(t == pre[0]);
                    assert(t@ == tviews[k]);
                    assert(tokens@ =~= pre.subrange(1, pre.len() as int));
                    assert(forall|ii: int|
                        0 <= ii < tokens@.len() ==> #[trigger] tokens@[ii] == pre[ii + 1]);
                }
                out.push(CanonicalRecord::CreateToken(t));
            }
            proof {
                assert(out@.map_values(|c: CanonicalRecord| c@) =~= tviews.map_values(
                    |t: TokenRecordView| CanonicalRecordView::CreateToken(t),
                ));
            }
            Ok(out)
        },
        NftEventKind::AssembleNft | NftEventKind::DisassembleNft => {
            let b64 = match &status {
                OutcomeStatus::SuccessValue(v) => v,
                OutcomeStatus::Failure => { return Err(TransformError::NotSuccessStatus) },
            };
            let bytes = match base64_decode(b64.as_str()) {
                Some(b) => b,
                None => { return Err(TransformError::PayloadNotBase64) },
            };
            let doc = match parse_json_bytes(bytes.as_slice()) {
                Some(d) => d,
                None => { return Err(TransformError::PayloadNotJson) },
            };
            let token = match decode_token(&doc) {
                Some(t) => t,
                None => { return Err(TransformError::PayloadWrongShape) },
            };
            let mut out: Vec<CanonicalRecord> = Vec::new();
            out.push(CanonicalRecord::UpdateToken(token));
            proof {
                assert(out@.map_values(|c: CanonicalRecord| c@) =~= seq![out@[0]@]);
            }
            Ok(out)
        },
    }
}

/// What the transformer makes of a market event: the price field is
/// normalized to human scale, the rest of the payload is carried over.
pub open spec fn spec_transform_market(e: MarketEventView) -> Result<
    CanonicalRecordView,
    TransformError,
> {
    match e {
        MarketEventView::Sale(s) => match spec_normalize_price(s.price) {
            None => Err(TransformError::PriceInvalid),
            Some(p) => Ok(
                CanonicalRecordView::NewSale(
                    SaleRecordView {
                        prev_owner: s.prev_owner,
                        curr_owner: s.curr_owner,
                        token_id: s.token_id,
                        price: p,
                    },
                ),
            ),
        },
        MarketEventView::AddBid(o) => match spec_normalize_price(o.price) {
            None => Err(TransformError::PriceInvalid),
            Some(p) => Ok(
                CanonicalRecordView::NewBid(
                    OrderRecordView { account_id: o.account_id, token_id: o.token_id, price: p },
                ),
            ),
        },
        MarketEventView::RemoveBid(o) => match spec_normalize_price(o.price) {
            None => Err(TransformError::PriceInvalid),
            Some(p) => Ok(
                CanonicalRecordView::DropBid(
                    OrderRecordView { account_id: o.account_id, token_id: o.token_id, price: p },
                ),
            ),
        },
        MarketEventView::AddAsk(o) => match spec_normalize_price(o.price) {
            None => Err(TransformError::PriceInvalid),
            Some(p) => Ok(
                CanonicalRecordView::NewAsk(
                    OrderRecordView { account_id: o.account_id, token_id: o.token_id, price: p },
                ),
            ),
        },
        MarketEventView::RemoveAsk(o) => match spec_normalize_price(o.price) {
            None => Err(TransformError::PriceInvalid),
            Some(p) => Ok(
                CanonicalRecordView::DropAsk(
                    OrderRecordView { account_id: o.account_id, token_id: o.token_id, price: p },
                ),
            ),
        },
    }
}

/// Transforms a market event into its canonical record, exactly as
/// `spec_transform_market` says.
pub fn transform_market_event(e: &MarketEventKind) -> (r: Result<CanonicalRecord, TransformError>)
    ensures
        match r {
            Ok(rec) => spec_transform_market(e@) == Ok::<_, TransformError>(rec@),
            Err(err) => spec_transform_market(e@) == Err::<CanonicalRecordView, _>(err),
        },
{
    match e {
        MarketEventKind::Sale(s) => {
            let price = match normalize_price(s.price.as_str()) {
                Some(p) => p,
                None => { return Err(TransformError::PriceInvalid) },
            };
            Ok(
                CanonicalRecord::NewSale(
                    SaleRecord {
                        prev_owner: s.prev_owner.clone(),
                        curr_owner: s.curr_owner.clone(),
                        token_id: s.token_id.clone(),
                        price,
                    },
                ),
            )
        },
        MarketEventKind::AddBid(o) => {
            let price = match normalize_price(o.price.as_str()) {
                Some(p) => p,
                None => { return Err(TransformError::PriceInvalid) },
            };
            Ok(
                CanonicalRecord::NewBid(
                    OrderRecord {
                        account_id: o.account_id.clone(),
                        token_id: o.token_id.clone(),
                        price,
                    },
                ),
            )
        },
        MarketEventKind::RemoveBid(o) => {
            let price = match normalize_price(o.price.as_str()) {
                Some(p) => p,
                None => { return Err(TransformError::PriceInvalid) },
            };
            Ok(
                CanonicalRecord::DropBid(
                    OrderRecord {
                        account_id: o.account_id.clone(),
                        token_id: o.token_id.clone(),
                        price,
                    },
                ),
            )
        },
        MarketEventKind::AddAsk(o) => {
            let price = match normalize_price(o.price.as_str()) {
                Some(p) => p,
                None => { return Err(TransformError::PriceInvalid) },
            };
            Ok(
                CanonicalRecord::NewAsk(
                    OrderRecord {
                        account_id: o.account_id.clone(),
                        token_id: o.token_id.clone(),
                        price,
                    },
                ),
            )
        },
        MarketEventKind::RemoveAsk(o) => {
            let price = match normalize_price(o.price.as_str()) {
                Some(p) => p,
                None => { return Err(TransformError::PriceInvalid) },
            };
            Ok(
                CanonicalRecord::DropAsk(
                    OrderRecord {
                        account_id: o.account_id.clone(),
                        token_id: o.token_id.clone(),
                        price,
                    },
                ),
            )
        },
    }
}

/// Transformation is a pure function: two runs on the same NFT event and
/// outcome status yield identical canonical records, including the
/// base64 and JSON steps, whose results are functions of the payload
/// alone.
pub proof fn lemma_nft_transform_deterministic(
    e: NftEventView,
    status: OutcomeStatusView,
    r1: Result<Seq<CanonicalRecordView>, TransformError>,
    r2: Result<Seq<CanonicalRecordView>, TransformError>,
)
    requires
        r1 == spec_transform_nft(e, status),
        r2 == spec_transform_nft(e, status),
    ensures
        r1 == r2,
{
}

/// Transformation is a pure function on the market side as well.
pub proof fn lemma_market_transform_deterministic(
    e: MarketEventView,
    r1: Result<CanonicalRecordView, TransformError>,
    r2: Result<CanonicalRecordView, TransformError>,
)
    requires
        r1 == spec_transform_market(e),
        r2 == spec_transform_market(e),
    ensures
        r1 == r2,
{
}

} // verus!

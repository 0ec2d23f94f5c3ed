//! Event extraction: scanning an outcome's log lines for the sentinel
//! prefix and decoding the remainder into the typed domain-event unions.
//! The shape grammar is decoded discriminant-first: the event-kind field
//! settles the variant before the payload is read, and input that fits no
//! shape is dropped with a diagnostic, never silently coerced.
use vstd::prelude::*;

use crate::json::{
    json_as_array, json_as_text, json_get, json_is_null, json_rep, json_doc_of_text, parse_json_text,
    JsonRep,
};
use crate::models::{
    MarketEventKind, MarketEventView, MarketOrder, MarketOrderView, MarketSale, MarketSaleView,
    NftEvent, NftEventKind, NftEventLogKind, NftEventLogView, NftEventView, StandardKind,
    VersionKind,
};
use crate::strings::{
    spec_after_prefix, spec_has_prefix, spec_trim, strip_prefix_str, text_eq, trim_line,
};

verus! {

/// Why a sentinel-prefixed log line was dropped.
#[derive(Debug, Clone, Copy, PartialEq, Eq, Structural)]
pub enum DropReason {
    /// The text after the sentinel is not valid JSON.
    InvalidJson,
    /// The JSON is valid but fits no known event shape.
    UnknownShape,
}

/// A degraded-continue diagnostic: which log line was dropped, and why.
#[derive(Debug, Clone, Copy, PartialEq, Eq, Structural)]
pub struct ExtractDiag {
    pub line_index: usize,
    pub reason: DropReason,
}

/// What one log line contributes to extraction.
pub enum LineParse<T> {
    /// The line does not carry the sentinel prefix: not an event, no error.
    NotEvent,
    /// The line carries the prefix but was dropped, with a diagnostic.
    Dropped(DropReason),
    /// The line decoded to one event.
    Parsed(T),
}

/// Decodes a sequence of JSON strings (a `token_ids` array).
pub open spec fn spec_decode_texts(s: Seq<JsonRep>) -> Option<Seq<Seq<char>>>
    decreases s.len(),
{
    if s.len() == 0 {
        Some(Seq::empty())
    } else {
        match (spec_decode_texts(s.drop_last()), s.last()) {
            (Some(rest), JsonRep::Text(t)) => Some(rest.push(t)),
            _ => None,
        }
    }
}

/// Decodes one entry of an NFT event's `data` array: `owner_id` and
/// `token_ids` are required, `memo` may be absent, null, or a string.
pub open spec fn spec_decode_mint_log(j: JsonRep) -> Option<NftEventLogView> {
    match j {
        JsonRep::Obj(m) => {
            if !(m.dom().contains("owner_id"@) && m["owner_id"@] is Text) {
                None
            } else if !(m.dom().contains("token_ids"@) && m["token_ids"@] is Arr) {
                None
            } else {
                match spec_decode_texts(m["token_ids"@]->Arr_0) {
                    None => None,
                    Some(tids) => {
                        if !m.dom().contains("memo"@) {
                            Some(
                                NftEventLogView {
                                    owner_id: m["owner_id"@]->Text_0,
                                    token_ids: tids,
                                    memo: None,
                                },
                            )
                        } else {
                            match m["memo"@] {
                                JsonRep::Null => Some(
                                    NftEventLogView {
                                        owner_id: m["owner_id"@]->Text_0,
                                        token_ids: tids,
                                        memo: None,
                                    },
                                ),
                                JsonRep::Text(t) => Some(
                                    NftEventLogView {
                                        owner_id: m["owner_id"@]->Text_0,
                                        token_ids: tids,
                                        memo: Some(t),
                                    },
                                ),
                                _ => None,
                            }
                        }
                    },
                }
            }
        },
        _ => None,
    }
}

/// Decodes an NFT event's `data` array.
pub open spec fn spec_decode_mint_logs(s: Seq<JsonRep>) -> Option<Seq<NftEventLogView>>
    decreases s.len(),
{
    if s.len() == 0 {
        Some(Seq::empty())
    } else {
        match (spec_decode_mint_logs(s.drop_last()), spec_decode_mint_log(s.last())) {
            (Some(rest), Some(l)) => Some(rest.push(l)),
            _ => None,
        }
    }
}

/// The event-kind discriminant of the NFT domain.
pub open spec fn spec_nft_kind(j: JsonRep) -> Option<NftEventKind> {
    if j == JsonRep::Text("nft_mint"@) {
        Some(NftEventKind::NftMint)
    } else if j == JsonRep::Text("nft_burn"@) {
        Some(NftEventKind::NftBurn)
    } else if j == JsonRep::Text("assemble_nft"@) {
        Some(NftEventKind::AssembleNft)
    } else if j == JsonRep::Text("disassemble_nft"@) {
        Some(NftEventKind::DisassembleNft)
    } else {
        None
    }
}

/// Decodes a JSON document as an NFT event: the standard, version and
/// event-kind discriminants are checked first, then the payload.
pub open spec fn spec_decode_nft(j: JsonRep) -> Option<NftEventView> {
    match j {
        JsonRep::Obj(m) => {
            if !(m.dom().contains("standard"@) && m["standard"@] == JsonRep::Text("nep171"@)) {
                None
            } else if !(m.dom().contains("version"@) && m["version"@] == JsonRep::Text("1.0.0"@)) {
                None
            } else if !m.dom().contains("event"@) {
                None
            } else {
                match spec_nft_kind(m["event"@]) {
                    None => None,
                    Some(kind) => {
                        if !(m.dom().contains("data"@) && m["data"@] is Arr) {
                            None
                        } else {
                            match spec_decode_mint_logs(m["data"@]->Arr_0) {
                                None => None,
                                Some(logs) => Some(
                                    NftEventView {
                                        standard: StandardKind::Nep171,
                                        version: VersionKind::V1_0_0,
                                        event: kind,
                                        data: logs,
                                    },
                                ),
                            }
                        }
                    },
                }
            }
        },
        _ => None,
    }
}

proof fn lemma_decode_texts_fail(s: Seq<JsonRep>, i: int)
    requires
        0 <= i < s.len(),
        !(s[i] is Text),
    ensures
        spec_decode_texts(s) is None,
    decreases s.len(),
{
    if i < s.len() - 1 {
        lemma_decode_texts_fail(s.drop_last(), i);
    }
}

proof fn lemma_decode_mint_logs_fail(s: Seq<JsonRep>, i: int)
    requires
        0 <= i < s.len(),
        spec_decode_mint_log(s[i]) is None,
    ensures
        spec_decode_mint_logs(s) is None,
    decreases s.len(),
{
    if i < s.len() - 1 {
        lemma_decode_mint_logs_fail(s.drop_last(), i);
    }
}

/// Decodes a `token_ids` array of JSON strings into owned strings.
fn decode_texts(a: &Vec<serde_json::Value>, Ghost(reps): Ghost<Seq<JsonRep>>) -> (r: Option<
    Vec<String>,
>)
    requires
        a@.len() == reps.len(),
        forall|i: int| 0 <= i < reps.len() ==> json_rep(#[trigger] a@[i]) == reps[i],
    ensures
        match r {
            Some(ts) => spec_decode_texts(reps) == Some(ts@.map_values(|t: String| t@)),
            None => spec_decode_texts(reps) is None,
        },
{
    let mut out: Vec<String> = Vec::new();
    let n = a.len();
    for i in 0..n
        invariant
            n == a@.len(),
            a@.len() == reps.len(),
            forall|k: int| 0 <= k < reps.len() ==> json_rep(#[trigger] a@[k]) == reps[k],
            spec_decode_texts(reps.take(i as int)) == Some(
                out@.map_values(|t: String| t@),
            ),
    {
        let t = match json_as_text(&a[i]) {
            Some(t) => t,
            None => {
                proof {
                    lemma_decode_texts_fail(reps, i as int);
                }
                return None;
            },
        };
        let owned = t.to_owned();
        out.push(owned);
        proof {
            assert(reps.take(i + 1).drop_last() =~= reps.take(i as int));
            assert(reps.take(i + 1).last() == reps[i as int]);
            assert(out@.map_values(|t: String| t@) =~= out@.drop_last().map_values(
                |t: String| t@,
            ).push(out@.last()@));
        }
    }
    proof {
        assert(reps.take(n as int) =~= reps);
    }
    Some(out)
}

/// Decodes one entry of an NFT event's `data` array.
fn decode_mint_log(v: &serde_json::Value) -> (r: Option<NftEventLogKind>)
    ensures
        match r {
            Some(l) => spec_decode_mint_log(json_rep(*v)) == Some(l@),
            None => spec_decode_mint_log(json_rep(*v)) is None,
        },
{
    let owner = match json_get(v, "owner_id") {
        Some(x) => x,
        None => { return None },
    };
    let owner_s = match json_as_text(owner) {
        Some(t) => t,
        None => { return None },
    };
    let tids_field = match json_get(v, "token_ids") {
        Some(x) => x,
        None => { return None },
    };
    let tids_arr = match json_as_array(tids_field) {
        Some(x) => x,
        None => { return None },
    };
    let ghost treps = json_rep(*tids_field)->Arr_0;
    let tids = match decode_texts(tids_arr, Ghost(treps)) {
        Some(ts) => ts,
        None => { return None },
    };
    let memo: Option<String> = match json_get(v, "memo") {
        None => None,
        Some(x) => {
            if json_is_null(x) {
                None
            } else {
                match json_as_text(x) {
                    Some(t) => Some(t.to_owned()),
                    None => { return None },
                }
            }
        },
    };
    Some(NftEventLogKind::NftMintLog { owner_id: owner_s.to_owned(), token_ids: tids, memo })
}

/// Decodes a parsed JSON document as an NFT event.
pub fn decode_nft_event(v: &serde_json::Value) -> (r: Option<NftEvent>)
    ensures
        match r {
            Some(e) => spec_decode_nft(json_rep(*v)) == Some(e@),
            None => spec_decode_nft(json_rep(*v)) is None,
        },
{
    let standard = match json_get(v, "standard") {
        Some(x) => x,
        None => { return None },
    };
    let st = match json_as_text(standard) {
        Some(t) => t,
        None => { return None },
    };
    if !text_eq(st, "nep171") {
        return None;
    }
    let version = match json_get(v, "version") {
        Some(x) => x,
        None => { return None },
    };
    let vt = match json_as_text(version) {
        Some(t) => t,
        None => { return None },
    };
    if !text_eq(vt, "1.0.0") {
        return None;
    }
    let event = match json_get(v, "event") {
        Some(x) => x,
        None => { return None },
    };
    let et = match json_as_text(event) {
        Some(t) => t,
        None => { return None },
    };
    let kind: NftEventKind = if text_eq(et, "nft_mint") {
        NftEventKind::NftMint
    } else if text_eq(et, "nft_burn") {
        NftEventKind::NftBurn
    } else if text_eq(et, "assemble_nft") {
        NftEventKind::AssembleNft
    } else if text_eq(et, "disassemble_nft") {
        NftEventKind::DisassembleNft
    } else {
        proof {
            let j = json_rep(*event);
            assert(j is Text && j->Text_0 == et@);
            assert(j == JsonRep::Text(et@));
            assert(spec_nft_kind(j) is None);
        }
        return None;
    };
    let data_field = match json_get(v, "data") {
        Some(x) => x,
        None => { return None },
    };
    let data_arr = match json_as_array(data_field) {
        Some(x) => x,
        None => { return None },
    };
    let ghost dreps = json_rep(*data_field)->Arr_0;
    let mut logs: Vec<NftEventLogKind> = Vec::new();
    let n = data_arr.len();
    #[verifier::loop_isolation(false)]
    for i in 0..n
        invariant
            n == data_arr@.len(),
            data_arr@.len() == dreps.len(),
            forall|k: int| 0 <= k < dreps.len() ==> json_rep(#[trigger] data_arr@[k]) == dreps[k],
            spec_decode_mint_logs(dreps.take(i as int)) == Some(
                logs@.map_values(|l: NftEventLogKind| l@),
            ),
    {
        let l = match decode_mint_log(&data_arr[i]) {
            Some(l) => l,
            None => {
                proof {
                    lemma_decode_mint_logs_fail(dreps, i as int);
                }
                return None;
            },
        };
        logs.push(l);
        proof {
            assert(dreps.take(i + 1).drop_last() =~= dreps.take(i as int));
            assert(dreps.take(i + 1).last() == dreps[i as int]);
            assert(logs@.map_values(|l: NftEventLogKind| l@) =~= logs@.drop_last().map_values(
                |l: NftEventLogKind| l@,
            ).push(logs@.last()@));
        }
    }
    proof {
        assert(dreps.take(n as int) =~= dreps);
    }
    Some(NftEvent { standard: StandardKind::Nep171, version: VersionKind::V1_0_0, event: kind, data: logs })
}

/// Decodes a sale payload: previous and current owner, token, and price.
pub open spec fn spec_decode_sale(j: JsonRep) -> Option<MarketSaleView> {
    match j {
        JsonRep::Obj(m) => {
            if m.dom().contains("prev_owner"@) && m["prev_owner"@] is Text && m.dom().contains(
                "curr_owner"@,
            ) && m["curr_owner"@] is Text && m.dom().contains("token_id"@)
                && m["token_id"@] is Text && m.dom().contains("price"@) && m["price"@] is Text {
                Some(
                    MarketSaleView {
                        prev_owner: m["prev_owner"@]->Text_0,
                        curr_owner: m["curr_owner"@]->Text_0,
                        token_id: m["token_id"@]->Text_0,
                        price: m["price"@]->Text_0,
                    },
                )
            } else {
                None
            }
        },
        _ => None,
    }
}

/// Decodes a bid or ask payload: account, token, and price.
pub open spec fn spec_decode_order(j: JsonRep) -> Option<MarketOrderView> {
    match j {
        JsonRep::Obj(m) => {
            if m.dom().contains("account_id"@) && m["account_id"@] is Text && m.dom().contains(
                "token_id"@,
            ) && m["token_id"@] is Text && m.dom().contains("price"@) && m["price"@] is Text {
                Some(
                    MarketOrderView {
                        account_id: m["account_id"@]->Text_0,
                        token_id: m["token_id"@]->Text_0,
                        price: m["price"@]->Text_0,
                    },
                )
            } else {
                None
            }
        },
        _ => None,
    }
}

/// How many of the five market discriminant keys an object carries.
pub open spec fn spec_market_tag_count(m: Map<Seq<char>, JsonRep>) -> int {
    (if m.dom().contains("sale"@) {
        1int
    } else {
        0int
    }) + (if m.dom().contains("add_bid"@) {
        1int
    } else {
        0int
    }) + (if m.dom().contains("remove_bid"@) {
        1int
    } else {
        0int
    }) + (if m.dom().contains("add_ask"@) {
        1int
    } else {
        0int
    }) + (if m.dom().contains("remove_ask"@) {
        1int
    } else {
        0int
    })
}

/// Decodes a JSON document as a market event: exactly one discriminant
/// key must be present (ambiguous input is rejected), then the payload is
/// decoded against the shape that key selects.
pub open spec fn spec_decode_market(j: JsonRep) -> Option<MarketEventView> {
    match j {
        JsonRep::Obj(m) => {
            if spec_market_tag_count(m) != 1 {
                None
            } else if m.dom().contains("sale"@) {
                match spec_decode_sale(m["sale"@]) {
                    Some(s) => Some(MarketEventView::Sale(s)),
                    None => None,
                }
            } else if m.dom().contains("add_bid"@) {
                match spec_decode_order(m["add_bid"@]) {
                    Some(o) => Some(MarketEventView::AddBid(o)),
                    None => None,
                }
            } else if m.dom().contains("remove_bid"@) {
                match spec_decode_order(m["remove_bid"@]) {
                    Some(o) => Some(MarketEventView::RemoveBid(o)),
                    None => None,
                }
            } else if m.dom().contains("add_ask"@) {
                match spec_decode_order(m["add_ask"@]) {
                    Some(o) => Some(MarketEventView::AddAsk(o)),
                    None => None,
                }
            } else if m.dom().contains("remove_ask"@) {
                match spec_decode_order(m["remove_ask"@]) {
                    Some(o) => Some(MarketEventView::RemoveAsk(o)),
                    None => None,
                }
            } else {
                None
            }
        },
        _ => None,
    }
}

/// Decodes a sale payload.
fn decode_sale(v: &serde_json::Value) -> (r: Option<MarketSale>)
    ensures
        match r {
            Some(s) => spec_decode_sale(json_rep(*v)) == Some(s@),
            None => spec_decode_sale(json_rep(*v)) is None,
        },
{
    let prev = match json_get(v, "prev_owner") {
        Some(x) => x,
        None => { return None },
    };
    let prev_s = match json_as_text(prev) {
        Some(t) => t,
        None => { return None },
    };
    let curr = match json_get(v, "curr_owner") {
        Some(x) => x,
        None => { return None },
    };
    let curr_s = match json_as_text(curr) {
        Some(t) => t,
        None => { return None },
    };
    let tok = match json_get(v, "token_id") {
        Some(x) => x,
        None => { return None },
    };
    let tok_s = match json_as_text(tok) {
        Some(t) => t,
        None => { return None },
    };
    let price = match json_get(v, "price") {
        Some(x) => x,
        None => { return None },
    };
    let price_s = match json_as_text(price) {
        Some(t) => t,
        None => { return None },
    };
    Some(
        MarketSale {
            prev_owner: prev_s.to_owned(),
            curr_owner: curr_s.to_owned(),
            token_id: tok_s.to_owned(),
            price: price_s.to_owned(),
        },
    )
}

/// Decodes a bid or ask payload.
fn decode_order(v: &serde_json::Value) -> (r: Option<MarketOrder>)
    ensures
        match r {
            Some(o) => spec_decode_order(json_rep(*v)) == Some(o@),
            None => spec_decode_order(json_rep(*v)) is None,
        },
{
    let acc = match json_get(v, "account_id") {
        Some(x) => x,
        None => { return None },
    };
    let acc_s = match json_as_text(acc) {
        Some(t) => t,
        None => { return None },
    };
    let tok = match json_get(v, "token_id") {
        Some(x) => x,
        None => { return None },
    };
    let tok_s = match json_as_text(tok) {
        Some(t) => t,
        None => { return None },
    };
    let price = match json_get(v, "price") {
        Some(x) => x,
        None => { return None },
    };
    let price_s = match json_as_text(price) {
        Some(t) => t,
        None => { return None },
    };
    Some(
        MarketOrder {
            account_id: acc_s.to_owned(),
            token_id: tok_s.to_owned(),
            price: price_s.to_owned(),
        },
    )
}

/// Decodes a parsed JSON document as a market event.
pub fn decode_market_event(v: &serde_json::Value) -> (r: Option<MarketEventKind>)
    ensures
        match r {
            Some(e) => spec_decode_market(json_rep(*v)) == Some(e@),
            None => spec_decode_market(json_rep(*v)) is None,
        },
{
    let sale = json_get(v, "sale");
    let add_bid = json_get(v, "add_bid");
    let remove_bid = json_get(v, "remove_bid");
    let add_ask = json_get(v, "add_ask");
    let remove_ask = json_get(v, "remove_ask");
    let mut count: u32 = 0;
    if sale.is_some() {
        count = count + 1;
    }
    if add_bid.is_some() {
        count = count + 1;
    }
    if remove_bid.is_some() {
        count = count + 1;
    }
    if add_ask.is_some() {
        count = count + 1;
    }
    if remove_ask.is_some() {
        count = count + 1;
    }
    if count != 1 {
        return None;
    }
    if let Some(payload) = sale {
        match decode_sale(payload) {
            Some(s) => Some(MarketEventKind::Sale(s)),
            None => None,
        }
    } else if let Some(payload) = add_bid {
        match decode_order(payload) {
            Some(o) => Some(MarketEventKind::AddBid(o)),
            None => None,
        }
    } else if let Some(payload) = remove_bid {
        match decode_order(payload) {
            Some(o) => Some(MarketEventKind::RemoveBid(o)),
            None => None,
        }
    } else if let Some(payload) = add_ask {
        match decode_order(payload) {
            Some(o) => Some(MarketEventKind::AddAsk(o)),
            None => None,
        }
    } else if let Some(payload) = remove_ask {
        match decode_order(payload) {
            Some(o) => Some(MarketEventKind::RemoveAsk(o)),
            None => None,
        }
    } else {
        None
    }
}

/// What extraction makes of one log line in the NFT domain.
pub open spec fn spec_nft_line(line: Seq<char>) -> LineParse<NftEventView> {
    let t = spec_trim(line);
    if !spec_has_prefix(t, "EVENT_JSON:"@) {
        LineParse::NotEvent
    } else {
        match json_doc_of_text(spec_after_prefix(t, "EVENT_JSON:"@)) {
            None => LineParse::Dropped(DropReason::InvalidJson),
            Some(j) => match spec_decode_nft(j) {
                None => LineParse::Dropped(DropReason::UnknownShape),
                Some(e) => LineParse::Parsed(e),
            },
        }
    }
}

/// What extraction makes of one log line in the market domain.
pub open spec fn spec_market_line(line: Seq<char>) -> LineParse<MarketEventView> {
    let t = spec_trim(line);
    if !spec_has_prefix(t, "EVENT_JSON:"@) {
        LineParse::NotEvent
    } else {
        match json_doc_of_text(spec_after_prefix(t, "EVENT_JSON:"@)) {
            None => LineParse::Dropped(DropReason::InvalidJson),
            Some(j) => match spec_decode_market(j) {
                None => LineParse::Dropped(DropReason::UnknownShape),
                Some(e) => LineParse::Parsed(e),
            },
        }
    }
}

/// Scans one log line for an NFT event.
pub fn extract_nft_line(line: &str) -> (r: LineParse<NftEvent>)
    ensures
        match r {
            LineParse::NotEvent => spec_nft_line(line@) is NotEvent,
            LineParse::Dropped(d) => spec_nft_line(line@) == LineParse::<NftEventView>::Dropped(d),
            LineParse::Parsed(e) => spec_nft_line(line@) == LineParse::<NftEventView>::Parsed(e@),
        },
{
    let t = trim_line(line);
    let rest = match strip_prefix_str(t, "EVENT_JSON:") {
        Some(r) => r,
        None => { return LineParse::NotEvent },
    };
    let v = match parse_json_text(rest) {
        Some(v) => v,
        None => { return LineParse::Dropped(DropReason::InvalidJson) },
    };
    match decode_nft_event(&v) {
        Some(e) => LineParse::Parsed(e),
        None => LineParse::Dropped(DropReason::UnknownShape),
    }
}

/// Scans one log line for a market event.
pub fn extract_market_line(line: &str) -> (r: LineParse<MarketEventKind>)
    ensures
        match r {
            LineParse::NotEvent => spec_market_line(line@) is NotEvent,
            LineParse::Dropped(d) => spec_market_line(line@) == LineParse::<
                MarketEventView,
            >::Dropped(d),
            LineParse::Parsed(e) => spec_market_line(line@) == LineParse::<
                MarketEventView,
            >::Parsed(e@),
        },
{
    let t = trim_line(line);
    let rest = match strip_prefix_str(t, "EVENT_JSON:") {
        Some(r) => r,
        None => { return LineParse::NotEvent },
    };
    let v = match parse_json_text(rest) {
        Some(v) => v,
        None => { return LineParse::Dropped(DropReason::InvalidJson) },
    };
    match decode_market_event(&v) {
        Some(e) => LineParse::Parsed(e),
        None => LineParse::Dropped(DropReason::UnknownShape),
    }
}

/// The NFT events an outcome's log lines carry, in log order.
pub open spec fn spec_nft_events(lines: Seq<Seq<char>>) -> Seq<NftEventView>
    decreases lines.len(),
{
    if lines.len() == 0 {
        Seq::empty()
    } else {
        let rest = spec_nft_events(lines.drop_last());
        match spec_nft_line(lines.last()) {
            LineParse::Parsed(e) => rest.push(e),
            _ => rest,
        }
    }
}

/// The diagnostics NFT extraction reports, in log order.
pub open spec fn spec_nft_diags(lines: Seq<Seq<char>>) -> Seq<ExtractDiag>
    decreases lines.len(),
{
    if lines.len() == 0 {
        Seq::empty()
    } else {
        let rest = spec_nft_diags(lines.drop_last());
        match spec_nft_line(lines.last()) {
            LineParse::Dropped(d) => rest.push(
                ExtractDiag { line_index: (lines.len() - 1) as usize, reason: d },
            ),
            _ => rest,
        }
    }
}

/// The market events an outcome's log lines carry, in log order.
pub open spec fn spec_market_events(lines: Seq<Seq<char>>) -> Seq<MarketEventView>
    decreases lines.len(),
{
    if lines.len() == 0 {
        Seq::empty()
    } else {
        let rest = spec_market_events(lines.drop_last());
        match spec_market_line(lines.last()) {
            LineParse::Parsed(e) => rest.push(e),
            _ => rest,
        }
    }
}

/// The diagnostics market extraction reports, in log order.
pub open spec fn spec_market_diags(lines: Seq<Seq<char>>) -> Seq<ExtractDiag>
    decreases lines.len(),
{
    if lines.len() == 0 {
        Seq::empty()
    } else {
        let rest = spec_market_diags(lines.drop_last());
        match spec_market_line(lines.last()) {
            LineParse::Dropped(d) => rest.push(
                ExtractDiag { line_index: (lines.len() - 1) as usize, reason: d },
            ),
            _ => rest,
        }
    }
}

/// What NFT extraction yields for one outcome: the decoded events and the
/// degraded-continue diagnostics, both in log order.
pub struct NftExtraction {
    pub events: Vec<NftEvent>,
    pub diags: Vec<ExtractDiag>,
}

/// What market extraction yields for one outcome.
pub struct MarketExtraction {
    pub events: Vec<MarketEventKind>,
    pub diags: Vec<ExtractDiag>,
}

/// Extracts every NFT event from an outcome's log lines. A line without
/// the sentinel prefix is passed over silently; a prefixed line that does
/// not decode is dropped with one diagnostic and extraction continues.
pub fn extract_nft_events(logs: &Vec<String>) -> (r: NftExtraction)
    ensures
        r.events@.map_values(|e: NftEvent| e@) == spec_nft_events(
            logs@.map_values(|l: String| l@),
        ),
        r.diags@ == spec_nft_diags(logs@.map_values(|l: String| l@)),
{
    let ghost lines = logs@.map_values(|l: String| l@);
    let mut events: Vec<NftEvent> = Vec::new();
    let mut diags: Vec<ExtractDiag> = Vec::new();
    let n = logs.len();
    #[verifier::loop_isolation(false)]
    for i in 0..n
        invariant
            events@.map_values(|e: NftEvent| e@) == spec_nft_events(lines.take(i as int)),
            diags@ == spec_nft_diags(lines.take(i as int)),
    {
        proof {
            assert(lines.take(i + 1).drop_last() =~= lines.take(i as int));
            assert(lines.take(i + 1).last() == lines[i as int]);
            assert(lines[i as int] == logs@[i as int]@);
        }
        match extract_nft_line(&logs[i]) {
            LineParse::Parsed(e) => {
                events.push(e);
                proof {
                    assert(events@.map_values(|e: NftEvent| e@) =~= events@.drop_last().map_values(
                        |e: NftEvent| e@,
                    ).push(events@.last()@));
                }
            },
            LineParse::Dropped(d) => {
                diags.push(ExtractDiag { line_index: i, reason: d });
            },
            LineParse::NotEvent => {},
        }
    }
    proof {
        assert(lines.take(n as int) =~= lines);
    }
    NftExtraction { events, diags }
}

/// Extracts every market event from an outcome's log lines, under the
/// same pass-over and drop rules as the NFT path.
pub fn extract_market_events(logs: &Vec<String>) -> (r: MarketExtraction)
    ensures
        r.events@.map_values(|e: MarketEventKind| e@) == spec_market_events(
            logs@.map_values(|l: String| l@),
        ),
        r.diags@ == spec_market_diags(logs@.map_values(|l: String| l@)),
{
    let ghost lines = logs@.map_values(|l: String| l@);
    let mut events: Vec<MarketEventKind> = Vec::new();
    let mut diags: Vec<ExtractDiag> = Vec::new();
    let n = logs.len();
    #[verifier::loop_isolation(false)]
    for i in 0..n
        invariant
            events@.map_values(|e: MarketEventKind| e@) == spec_market_events(
                lines.take(i as int),
            ),
            diags@ == spec_market_diags(lines.take(i as int)),
    {
        proof {
            assert(lines.take(i + 1).drop_last() =~= lines.take(i as int));
            assert(lines.take(i + 1).last() == lines[i as int]);
            assert(lines[i as int] == logs@[i as int]@);
        }
        match extract_market_line(&logs[i]) {
            LineParse::Parsed(e) => {
                events.push(e);
                proof {
                    assert(events@.map_values(|e: MarketEventKind| e@)
                        =~= events@.drop_last().map_values(|e: MarketEventKind| e@).push(
                        events@.last()@,
                    ));
                }
            },
            LineParse::Dropped(d) => {
                diags.push(ExtractDiag { line_index: i, reason: d });
            },
            LineParse::NotEvent => {},
        }
    }
    proof {
        assert(lines.take(n as int) =~= lines);
    }
    MarketExtraction { events, diags }
}

/// A log line without the sentinel prefix is no event and no error, in
/// either domain.
pub proof fn lemma_line_without_prefix_is_silent(line: Seq<char>)
    requires
        !spec_has_prefix(spec_trim(line), "EVENT_JSON:"@),
    ensures
        spec_nft_line(line) is NotEvent,
        spec_market_line(line) is NotEvent,
{
}

/// A line that contributes no event leaves both the extracted events and
/// the diagnostics of the remaining lines unchanged.
pub proof fn lemma_silent_line_contributes_nothing(lines: Seq<Seq<char>>)
    requires
        lines.len() > 0,
        spec_nft_line(lines.last()) is NotEvent,
        spec_market_line(lines.last()) is NotEvent,
    ensures
        spec_nft_events(lines) == spec_nft_events(lines.drop_last()),
        spec_nft_diags(lines) == spec_nft_diags(lines.drop_last()),
        spec_market_events(lines) == spec_market_events(lines.drop_last()),
        spec_market_diags(lines) == spec_market_diags(lines.drop_last()),
{
}

/// A sentinel-prefixed line whose remainder is not valid JSON is dropped,
/// not parsed, in either domain.
pub proof fn lemma_invalid_json_line_dropped(line: Seq<char>)
    requires
        spec_has_prefix(spec_trim(line), "EVENT_JSON:"@),
        json_doc_of_text(spec_after_prefix(spec_trim(line), "EVENT_JSON:"@)) is None,
    ensures
        spec_nft_line(line) == LineParse::<NftEventView>::Dropped(DropReason::InvalidJson),
        spec_market_line(line) == LineParse::<MarketEventView>::Dropped(DropReason::InvalidJson),
{
}

/// A dropped line is isolated: it emits no event, it reports exactly one
/// diagnostic, and extraction of every other line is unaffected.
pub proof fn lemma_dropped_nft_line_isolated(lines: Seq<Seq<char>>, i: int)
    requires
        0 <= i < lines.len(),
        spec_nft_line(lines[i]) is Dropped,
    ensures
        spec_nft_events(lines) == spec_nft_events(lines.remove(i)),
        spec_nft_diags(lines).len() == spec_nft_diags(lines.remove(i)).len() + 1,
    decreases lines.len(),
{
    if i == lines.len() - 1 {
        assert(lines.remove(i) =~= lines.drop_last());
    } else {
        lemma_dropped_nft_line_isolated(lines.drop_last(), i);
        assert(lines.remove(i).drop_last() =~= lines.drop_last().remove(i));
        assert(lines.remove(i).last() == lines.last());
        assert(lines.remove(i).len() == lines.len() - 1);
    }
}

/// The market-domain counterpart of the isolation law for dropped lines.
pub proof fn lemma_dropped_market_line_isolated(lines: Seq<Seq<char>>, i: int)
    requires
        0 <= i < lines.len(),
        spec_market_line(lines[i]) is Dropped,
    ensures
        spec_market_events(lines) == spec_market_events(lines.remove(i)),
        spec_market_diags(lines).len() == spec_market_diags(lines.remove(i)).len() + 1,
    decreases lines.len(),
{
    if i == lines.len() - 1 {
        assert(lines.remove(i) =~= lines.drop_last());
    } else {
        lemma_dropped_market_line_isolated(lines.drop_last(), i);
        assert(lines.remove(i).drop_last() =~= lines.drop_last().remove(i));
        assert(lines.remove(i).last() == lines.last());
        assert(lines.remove(i).len() == lines.len() - 1);
    }
}

} // verus!

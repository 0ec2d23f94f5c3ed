//! The verified JSON writer for canonical records: the request bodies
//! the REST sink carries are built here, character for character, against
//! an exact specification of the text.
use vstd::prelude::*;
use vstd::string::{StrSliceExecFns, StringExecFns};

use crate::config::ContractConfigView;
use crate::models::{
    OrderRecord, OrderRecordView, SaleRecord, SaleRecordView, TokenRecord, TokenRecordView,
};
use crate::strings::{digit_str, push_char, spec_digit_char, spec_u64_dec, u64_to_dec};

verus! {

/// The hexadecimal digit character for a value below sixteen.
pub open spec fn spec_hex_char(d: int) -> char {
    if d < 10 {
        spec_digit_char(d)
    } else if d == 10 {
        'a'
    } else if d == 11 {
        'b'
    } else if d == 12 {
        'c'
    } else if d == 13 {
        'd'
    } else if d == 14 {
        'e'
    } else {
        'f'
    }
}

/// How one character is written inside a JSON string: quotes and
/// backslashes are escaped, the common control characters take their
/// short escapes, any other control character is written as a
/// four-digit escape, and everything else stands as itself.
pub open spec fn spec_escape_char(c: char) -> Seq<char> {
    if c == '"' {
        seq!['\\', '"']
    } else if c == '\\' {
        seq!['\\', '\\']
    } else if c == '\n' {
        seq!['\\', 'n']
    } else if c == '\r' {
        seq!['\\', 'r']
    } else if c == '\t' {
        seq!['\\', 't']
    } else if (c as u32) < 32 {
        seq!['\\', 'u', '0', '0', spec_hex_char(c as u32 as int / 16), spec_hex_char(
            c as u32 as int % 16,
        )]
    } else {
        seq![c]
    }
}

/// The escaped body of a JSON string.
pub open spec fn spec_escape(s: Seq<char>) -> Seq<char>
    decreases s.len(),
{
    if s.len() == 0 {
        Seq::empty()
    } else {
        spec_escape(s.drop_last()) + spec_escape_char(s.last())
    }
}

/// A JSON string: a quote, the escaped characters, a quote.
pub open spec fn spec_json_str(s: Seq<char>) -> Seq<char> {
    seq!['"'] + spec_escape(s) + seq!['"']
}

/// An optional string field's value: `null` or a JSON string.
pub open spec fn spec_opt_json_str(o: Option<Seq<char>>) -> Seq<char> {
    match o {
        None => "null"@,
        Some(s) => spec_json_str(s),
    }
}

/// An optional number field's value: `null` or the decimal digits.
pub open spec fn spec_opt_json_num(o: Option<u64>) -> Seq<char> {
    match o {
        None => "null"@,
        Some(n) => spec_u64_dec(n as nat),
    }
}

fn hex_str(d: u8) -> (r: &'static str)
    requires
        d < 16,
    ensures
        r@ == seq![spec_hex_char(d as int)],
{
    if d < 10 {
        digit_str(d)
    } else {
        match d {
            10 => {
                proof {
                    reveal_strlit("a");
                }
                "a"
            },
            11 => {
                proof {
                    reveal_strlit("b");
                }
                "b"
            },
            12 => {
                proof {
                    reveal_strlit("c");
                }
                "c"
            },
            13 => {
                proof {
                    reveal_strlit("d");
                }
                "d"
            },
            14 => {
                proof {
                    reveal_strlit("e");
                }
                "e"
            },
            _ => {
                proof {
                    reveal_strlit("f");
                }
                "f"
            },
        }
    }
}

/// Appends the escaped characters of `s`.
fn append_escaped(out: &mut String, s: &str)
    ensures
        final(out)@ == old(out)@ + spec_escape(s@),
{
    let len = s.unicode_len();
    let mut i: usize = 0;
    #[verifier::loop_isolation(false)]
    while i < len
        invariant
            0 <= i <= len,
            len == s@.len(),
            out@ == old(out)@ + spec_escape(s@.take(i as int)),
        decreases len - i,
    {
        let c = s.get_char(i);
        if c == '"' {
            out.append("\\\"");
            proof {
                reveal_strlit("\\\"");
                assert("\\\""@ =~= spec_escape_char('"'));
            }
        } else if c == '\\' {
            out.append("\\\\");
            proof {
                reveal_strlit("\\\\");
                assert("\\\\"@ =~= spec_escape_char('\\'));
            }
        } else if c == '\n' {
            out.append("\\n");
            proof {
                reveal_strlit("\\n");
                assert("\\n"@ =~= spec_escape_char('\n'));
            }
        } else if c == '\r' {
            out.append("\\r");
            proof {
                reveal_strlit("\\r");
                assert("\\r"@ =~= spec_escape_char('\r'));
            }
        } else if c == '\t' {
            out.append("\\t");
            proof {
                reveal_strlit("\\t");
                assert("\\t"@ =~= spec_escape_char('\t'));
            }
        } else if (c as u32) < 32 {
            out.append("\\u00");
            let hi = ((c as u32) / 16) as u8;
            let lo = ((c as u32) % 16) as u8;
            out.append(hex_str(hi));
            out.append(hex_str(lo));
            proof {
                reveal_strlit("\\u00");
                assert("\\u00"@ + seq![spec_hex_char(hi as int)] + seq![spec_hex_char(lo as int)]
                    =~= spec_escape_char(c));
            }
        } else {
            push_char(out, c);
            proof {
                assert(out@ =~= old(out)@ + spec_escape(s@.take(i as int)) + seq![c]);
            }
        }
        proof {
            assert(s@.take(i + 1).drop_last() =~= s@.take(i as int));
            assert(s@.take(i + 1).last() == s@[i as int]);
            assert(out@ =~= old(out)@ + spec_escape(s@.take(i + 1)));
        }
        i = i + 1;
    }
    proof {
        assert(s@.take(len as int) =~= s@);
    }
}

/// Appends `s` as a JSON string.
fn append_json_str(out: &mut String, s: &str)
    ensures
        final(out)@ == old(out)@ + spec_json_str(s@),
{
    out.append("\"");
    append_escaped(out, s);
    out.append("\"");
    proof {
        reveal_strlit("\"");
        assert("\""@ =~= seq!['"']);
        assert(out@ =~= old(out)@ + spec_json_str(s@));
    }
}

/// Appends an optional string field's value.
fn append_opt_json_str(out: &mut String, o: &Option<String>)
    ensures
        final(out)@ == old(out)@ + spec_opt_json_str(
            match o {
                Some(s) => Some(s@),
                None => None,
            },
        ),
{
    match o {
        None => {
            out.append("null");
        },
        Some(s) => {
            append_json_str(out, s.as_str());
        },
    }
}

/// Appends an optional number field's value.
fn append_opt_json_num(out: &mut String, o: &Option<u64>)
    ensures
        final(out)@ == old(out)@ + spec_opt_json_num(*o),
{
    match o {
        None => {
            out.append("null");
        },
        Some(n) => {
            let d = u64_to_dec(*n);
            out.append(d.as_str());
        },
    }
}

/// The request body for one NFT token record.
#[verifier::opaque]
pub open spec fn spec_token_body(t: TokenRecordView) -> Seq<char> {
    "{\"owner_id\":"@ + spec_json_str(t.owner_id) + ",\"token_id\":"@ + spec_json_str(t.token_id)
        + ",\"title\":"@ + spec_opt_json_str(t.title) + ",\"description\":"@ + spec_opt_json_str(
        t.description,
    ) + ",\"media\":"@ + spec_opt_json_str(t.media) + ",\"media_hash\":null"@ + ",\"copies\":"@
        + spec_opt_json_num(t.copies) + ",\"issued_at\":"@ + spec_opt_json_str(t.issued_at)
        + ",\"expires_at\":"@ + spec_opt_json_str(t.expires_at) + ",\"model\":"@ + t.model_json
        + "}"@
}

/// Writes the request body for one NFT token record.
pub fn token_body(t: &TokenRecord) -> (r: String)
    ensures
        r@ == spec_token_body(t@),
{
    let mut out = String::new();
    out.append("{\"owner_id\":");
    append_json_str(&mut out, t.owner_id.as_str());
    out.append(",\"token_id\":");
    append_json_str(&mut out, t.token_id.as_str());
    out.append(",\"title\":");
    append_opt_json_str(&mut out, &t.title);
    out.append(",\"description\":");
    append_opt_json_str(&mut out, &t.description);
    out.append(",\"media\":");
    append_opt_json_str(&mut out, &t.media);
    out.append(",\"media_hash\":null");
    out.append(",\"copies\":");
    append_opt_json_num(&mut out, &t.copies);
    out.append(",\"issued_at\":");
    append_opt_json_str(&mut out, &t.issued_at);
    out.append(",\"expires_at\":");
    append_opt_json_str(&mut out, &t.expires_at);
    out.append(",\"model\":");
    out.append(t.model_json.as_str());
    out.append("}");
    proof {
        reveal(spec_token_body);
        assert(out@ =~= spec_token_body(t@));
    }
    out
}

/// The request body for one sale record.
#[verifier::opaque]
pub open spec fn spec_sale_body(s: SaleRecordView) -> Seq<char> {
    "{\"prev_owner\":"@ + spec_json_str(s.prev_owner) + ",\"curr_owner\":"@ + spec_json_str(
        s.curr_owner,
    ) + ",\"token_id\":"@ + spec_json_str(s.token_id) + ",\"price\":"@ + spec_json_str(s.price)
        + "}"@
}

/// Writes the request body for one sale record.
pub fn sale_body(s: &SaleRecord) -> (r: String)
    ensures
        r@ == spec_sale_body(s@),
{
    let mut out = String::new();
    out.append("{\"prev_owner\":");
    append_json_str(&mut out, s.prev_owner.as_str());
    out.append(",\"curr_owner\":");
    append_json_str(&mut out, s.curr_owner.as_str());
    out.append(",\"token_id\":");
    append_json_str(&mut out, s.token_id.as_str());
    out.append(",\"price\":");
    append_json_str(&mut out, s.price.as_str());
    out.append("}");
    proof {
        reveal(spec_sale_body);
        assert(out@ =~= spec_sale_body(s@));
    }
    out
}

/// The request body for one bid or ask record.
#[verifier::opaque]
pub open spec fn spec_order_body(o: OrderRecordView) -> Seq<char> {
    "{\"account_id\":"@ + spec_json_str(o.account_id) + ",\"token_id\":"@ + spec_json_str(
        o.token_id,
    ) + ",\"price\":"@ + spec_json_str(o.price) + "}"@
}

/// Writes the request body for one bid or ask record.
pub fn order_body(o: &OrderRecord) -> (r: String)
    ensures
        r@ == spec_order_body(o@),
{
    let mut out = String::new();
    out.append("{\"account_id\":");
    append_json_str(&mut out, o.account_id.as_str());
    out.append(",\"token_id\":");
    append_json_str(&mut out, o.token_id.as_str());
    out.append(",\"price\":");
    append_json_str(&mut out, o.price.as_str());
    out.append("}");
    proof {
        reveal(spec_order_body);
        assert(out@ =~= spec_order_body(o@));
    }
    out
}

/// The body registering the monitored contract identities.
#[verifier::opaque]
pub open spec fn spec_contracts_body(c: ContractConfigView) -> Seq<char> {
    "{\"top_contract_id\":"@ + spec_json_str(c.top_contract_id) + ",\"nft_contract_id\":"@
        + spec_json_str(c.nft_contract_id) + ",\"market_contract_id\":"@ + spec_json_str(
        c.market_contract_id,
    ) + "}"@
}

/// Writes the body registering the monitored contract identities.
pub fn contracts_body(top: &str, nft: &str, market: &str) -> (r: String)
    ensures
        r@ == spec_contracts_body(
            ContractConfigView {
                top_contract_id: top@,
                nft_contract_id: nft@,
                market_contract_id: market@,
            },
        ),
{
    let mut out = String::new();
    out.append("{\"top_contract_id\":");
    append_json_str(&mut out, top);
    out.append(",\"nft_contract_id\":");
    append_json_str(&mut out, nft);
    out.append(",\"market_contract_id\":");
    append_json_str(&mut out, market);
    out.append("}");
    proof {
        reveal(spec_contracts_body);
        assert(out@ =~= spec_contracts_body(
            ContractConfigView {
                top_contract_id: top@,
                nft_contract_id: nft@,
                market_contract_id: market@,
            },
        ));
    }
    out
}

} // verus!

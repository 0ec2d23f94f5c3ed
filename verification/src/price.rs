//! Price normalization: a price arrives as a decimal string of base
//! units scaled by ten to the twenty-fourth power, and is rewritten as a
//! human-scale decimal string, exactly, with no rounding and no floating
//! point.
use vstd::prelude::*;
use vstd::string::{StrSliceExecFns, StringExecFns};

verus! {

/// How many decimal places the source representation is scaled by.
pub const PRICE_SCALE: usize = 24;

/// Whether `c` is a decimal digit.
pub open spec fn is_digit(c: char) -> bool {
    '0' <= c && c <= '9'
}

/// Whether every character of `s` is a decimal digit.
pub open spec fn all_digits(s: Seq<char>) -> bool {
    forall|i: int| 0 <= i < s.len() ==> is_digit(#[trigger] s[i])
}

/// A run of `n` zero digits.
pub open spec fn spec_zeros(n: int) -> Seq<char> {
    Seq::new(n as nat, |i: int| '0')
}

/// `s` with leading zero digits dropped, keeping at least one digit.
pub open spec fn spec_trim_lead_zeros(s: Seq<char>) -> Seq<char>
    decreases s.len(),
{
    if s.len() > 1 && s[0] == '0' {
        spec_trim_lead_zeros(s.drop_first())
    } else {
        s
    }
}

/// `s` with trailing zero digits dropped, possibly to emptiness.
pub open spec fn spec_trim_trail_zeros(s: Seq<char>) -> Seq<char>
    decreases s.len(),
{
    if s.len() > 0 && s[s.len() - 1] == '0' {
        spec_trim_trail_zeros(s.drop_last())
    } else {
        s
    }
}

/// `s` left-padded with zero digits to the scale width.
pub open spec fn spec_pad_to_scale(s: Seq<char>) -> Seq<char> {
    spec_zeros(24 - s.len()) + s
}

/// The canonical human-scale rendering of a scaled decimal string: the
/// integer part (leading zeros dropped), then, unless the fractional
/// part is all zeros, a point and the fractional part with trailing
/// zeros dropped. Inputs that are empty or not all digits are rejected.
pub open spec fn spec_normalize_price(s: Seq<char>) -> Option<Seq<char>> {
    if s.len() == 0 || !all_digits(s) {
        None
    } else {
        let ip = if s.len() <= 24 {
            seq!['0']
        } else {
            spec_trim_lead_zeros(s.subrange(0, s.len() - 24))
        };
        let fp_raw = if s.len() <= 24 {
            spec_pad_to_scale(s)
        } else {
            s.subrange(s.len() - 24, s.len() as int)
        };
        let fp = spec_trim_trail_zeros(fp_raw);
        if fp.len() == 0 {
            Some(ip)
        } else {
            Some(ip + seq!['.'] + fp)
        }
    }
}

/// The value of one digit character.
pub open spec fn spec_digit_val(c: char) -> int {
    c as u32 - 48
}

/// The integer a run of digit characters stands for.
pub open spec fn spec_digits_val(s: Seq<char>) -> int
    decreases s.len(),
{
    if s.len() == 0 {
        0
    } else {
        spec_digits_val(s.drop_last()) * 10 + spec_digit_val(s.last())
    }
}

/// Ten to the given power.
pub open spec fn spec_pow10(n: nat) -> int
    decreases n,
{
    if n == 0 {
        1
    } else {
        10 * spec_pow10((n - 1) as nat)
    }
}

proof fn lemma_single_zero_val()
    ensures
        spec_digits_val(seq!['0']) == 0,
{
    assert(seq!['0'].drop_last() =~= Seq::<char>::empty());
    assert(spec_digits_val(Seq::<char>::empty()) == 0);
    assert(seq!['0'].last() == '0');
}

proof fn lemma_digits_val_concat(a: Seq<char>, b: Seq<char>)
    ensures
        spec_digits_val(a + b) == spec_digits_val(a) * spec_pow10(b.len()) + spec_digits_val(b),
    decreases b.len(),
{
    if b.len() == 0 {
        assert(a + b =~= a);
    } else {
        lemma_digits_val_concat(a, b.drop_last());
        assert((a + b).drop_last() =~= a + b.drop_last());
        assert((a + b).last() == b.last());
        assert(spec_digits_val(a + b) == (spec_digits_val(a) * spec_pow10((b.len() - 1) as nat)
            + spec_digits_val(b.drop_last())) * 10 + spec_digit_val(b.last()));
        assert(spec_digits_val(a) * spec_pow10((b.len() - 1) as nat) * 10 == spec_digits_val(a)
            * spec_pow10(b.len())) by (nonlinear_arith)
            requires
                spec_pow10(b.len()) == 10 * spec_pow10((b.len() - 1) as nat),
        ;
    }
}

proof fn lemma_trim_lead_keeps_val(s: Seq<char>)
    ensures
        spec_digits_val(spec_trim_lead_zeros(s)) == spec_digits_val(s),
    decreases s.len(),
{
    if s.len() > 1 && s[0] == '0' {
        lemma_trim_lead_keeps_val(s.drop_first());
        assert(s =~= seq![s[0]] + s.drop_first());
        lemma_digits_val_concat(seq![s[0]], s.drop_first());
        lemma_single_zero_val();
        assert(seq![s[0]] =~= seq!['0']);
        assert(0 * spec_pow10(s.drop_first().len()) == 0) by (nonlinear_arith);
    }
}

proof fn lemma_trim_trail_scales_val(s: Seq<char>)
    ensures
        spec_trim_trail_zeros(s).len() <= s.len(),
        spec_digits_val(spec_trim_trail_zeros(s)) * spec_pow10(
            (s.len() - spec_trim_trail_zeros(s).len()) as nat,
        ) == spec_digits_val(s),
    decreases s.len(),
{
    let t = spec_trim_trail_zeros(s);
    if s.len() > 0 && s[s.len() - 1] == '0' {
        lemma_trim_trail_scales_val(s.drop_last());
        let k = (s.drop_last().len() - t.len()) as nat;
        assert(spec_digits_val(s) == spec_digits_val(s.drop_last()) * 10);
        assert(spec_digits_val(t) * spec_pow10(k + 1) == spec_digits_val(t) * spec_pow10(k) * 10)
            by (nonlinear_arith)
            requires
                spec_pow10(k + 1) == 10 * spec_pow10(k),
        ;
    } else {
        assert(spec_digits_val(t) * spec_pow10(0) == spec_digits_val(s)) by (nonlinear_arith)
            requires
                t == s,
                spec_pow10(0) == 1,
        ;
    }
}

proof fn lemma_zeros_val(n: int)
    requires
        n >= 0,
    ensures
        spec_digits_val(spec_zeros(n)) == 0,
    decreases n,
{
    if n > 0 {
        lemma_zeros_val(n - 1);
        assert(spec_zeros(n).drop_last() =~= spec_zeros(n - 1));
    }
}

/// Normalization loses no precision: read the rendered integer part and
/// the rendered fractional part (restored to the scale width) as
/// numbers, and together they stand for exactly the input's value in
/// base units.
pub proof fn lemma_normalize_price_exact(s: Seq<char>)
    requires
        s.len() > 0,
        all_digits(s),
    ensures
        ({
            let ip = if s.len() <= 24 {
                seq!['0']
            } else {
                spec_trim_lead_zeros(s.subrange(0, s.len() - 24))
            };
            let fp_raw = if s.len() <= 24 {
                spec_pad_to_scale(s)
            } else {
                s.subrange(s.len() - 24, s.len() as int)
            };
            let fp = spec_trim_trail_zeros(fp_raw);
            &&& fp.len() <= 24
            &&& spec_digits_val(ip) * spec_pow10(24) + spec_digits_val(fp) * spec_pow10(
                (24 - fp.len()) as nat,
            ) == spec_digits_val(s)
        }),
{
    if s.len() <= 24 {
        let fp_raw = spec_pad_to_scale(s);
        let fp = spec_trim_trail_zeros(fp_raw);
        lemma_zeros_val(24 - s.len());
        lemma_digits_val_concat(spec_zeros(24 - s.len()), s);
        assert(0 * spec_pow10(s.len()) == 0) by (nonlinear_arith);
        assert(spec_digits_val(fp_raw) == spec_digits_val(s));
        lemma_trim_trail_scales_val(fp_raw);
        assert(fp_raw.len() == 24);
        lemma_single_zero_val();
        assert(0 * spec_pow10(24) == 0) by (nonlinear_arith);
    } else {
        let a = s.subrange(0, s.len() - 24);
        let b = s.subrange(s.len() - 24, s.len() as int);
        assert(s =~= a + b);
        lemma_digits_val_concat(a, b);
        lemma_trim_lead_keeps_val(a);
        lemma_trim_trail_scales_val(b);
        let ip = spec_trim_lead_zeros(a);
        let fp = spec_trim_trail_zeros(b);
        assert(b.len() == 24);
        assert(spec_digits_val(ip) == spec_digits_val(a));
        assert(spec_digits_val(fp) * spec_pow10((24 - fp.len()) as nat) == spec_digits_val(b));
    }
}

proof fn lemma_trim_lead_at(s: Seq<char>, i: int)
    requires
        0 <= i < s.len(),
        forall|k: int| 0 <= k < i ==> s[k] == '0',
        i == s.len() - 1 || s[i] != '0',
    ensures
        spec_trim_lead_zeros(s) =~= s.subrange(i, s.len() as int),
    decreases i,
{
    if i == 0 {
        assert(s.subrange(0, s.len() as int) =~= s);
    } else {
        let t = s.drop_first();
        assert(forall|k: int| 0 <= k < i - 1 ==> t[k] == '0');
        lemma_trim_lead_at(t, i - 1);
        assert(t.subrange(i - 1, t.len() as int) =~= s.subrange(i, s.len() as int));
    }
}

proof fn lemma_trim_trail_at(s: Seq<char>, j: int)
    requires
        0 <= j <= s.len(),
        forall|k: int| j <= k < s.len() ==> s[k] == '0',
        j == 0 || s[j - 1] != '0',
    ensures
        spec_trim_trail_zeros(s) =~= s.subrange(0, j),
    decreases s.len() - j,
{
    if j == s.len() {
        assert(s.subrange(0, j) =~= s);
    } else {
        assert(s[s.len() - 1] == '0');
        let t = s.drop_last();
        assert(forall|k: int| j <= k < t.len() ==> t[k] == '0');
        lemma_trim_trail_at(t, j);
        assert(t.subrange(0, j) =~= s.subrange(0, j));
    }
}

/// Whether `c` is a decimal digit.
pub fn digit_char(c: char) -> (r: bool)
    ensures
        r == is_digit(c),
{
    c >= '0' && c <= '9'
}

/// Rewrites a scaled decimal price string at human scale, exactly.
/// Rejects input that is empty or holds a non-digit.
pub fn normalize_price(s: &str) -> (r: Option<String>)
    ensures
        match r {
            Some(t) => spec_normalize_price(s@) == Some(t@),
            None => spec_normalize_price(s@) is None,
        },
{
    let len = s.unicode_len();
    if len == 0 {
        return None;
    }
    let mut i: usize = 0;
    while i < len
        invariant
            0 <= i <= len,
            len == s@.len(),
            forall|k: int| 0 <= k < i ==> is_digit(#[trigger] s@[k]),
        decreases len - i,
    {
        if !digit_char(s.get_char(i)) {
            return None;
        }
        i = i + 1;
    }
    // integer part
    let mut out: String;
    let frac_str: &str;
    if len <= PRICE_SCALE {
        out = "0".to_owned();
        proof {
            reveal_strlit("0");
            assert(out@ =~= seq!['0']);
        }
        // left-pad the whole input to the scale width
        let mut padded = String::new();
        let zeros = PRICE_SCALE - len;
        let mut z: usize = 0;
        while z < zeros
            invariant
                0 <= z <= zeros,
                zeros == 24 - len,
                padded@ =~= spec_zeros(z as int),
            decreases zeros - z,
        {
            padded.append("0");
            proof {
                reveal_strlit("0");
                assert(padded@ =~= spec_zeros(z + 1));
            }
            z = z + 1;
        }
        padded.append(s);
        proof {
            assert(padded@ =~= spec_pad_to_scale(s@));
        }
        let plen = padded.as_str().unicode_len();
        let mut j: usize = plen;
        while j > 0 && padded.as_str().get_char(j - 1) == '0'
            invariant
                0 <= j <= plen,
                plen == padded@.len(),
                forall|k: int| j <= k < plen ==> padded@[k] == '0',
            decreases j,
        {
            j = j - 1;
        }
        proof {
            lemma_trim_trail_at(padded@, j as int);
        }
        frac_str = padded.as_str().substring_char(0, j);
        if frac_str.unicode_len() == 0 {
            return Some(out);
        }
        out.append(".");
        out.append(frac_str);
        proof {
            reveal_strlit(".");
            assert("."@ =~= seq!['.']);
        }
        return Some(out);
    } else {
        let ip_raw = s.substring_char(0, len - PRICE_SCALE);
        let iplen = len - PRICE_SCALE;
        let mut a: usize = 0;
        while a < iplen - 1 && ip_raw.get_char(a) == '0'
            invariant
                0 <= a <= iplen - 1,
                iplen == ip_raw@.len(),
                iplen >= 1,
                forall|k: int| 0 <= k < a ==> ip_raw@[k] == '0',
            decreases iplen - a,
        {
            a = a + 1;
        }
        proof {
            lemma_trim_lead_at(ip_raw@, a as int);
        }
        let ip = ip_raw.substring_char(a, iplen);
        let fr_raw = s.substring_char(len - PRICE_SCALE, len);
        let frlen: usize = PRICE_SCALE;
        let mut j: usize = frlen;
        while j > 0 && fr_raw.get_char(j - 1) == '0'
            invariant
                0 <= j <= frlen,
                frlen == fr_raw@.len(),
                forall|k: int| j <= k < frlen ==> fr_raw@[k] == '0',
            decreases j,
        {
            j = j - 1;
        }
        proof {
            lemma_trim_trail_at(fr_raw@, j as int);
        }
        let fr = fr_raw.substring_char(0, j);
        out = ip.to_owned();
        if fr.unicode_len() == 0 {
            return Some(out);
        }
        out.append(".");
        out.append(fr);
        proof {
            reveal_strlit(".");
            assert("."@ =~= seq!['.']);
        }
        return Some(out);
    }
}

} // verus!

//! Text-level helpers: byte comparison, whitespace trimming, XML text
//! escaping and unescaping, and decimal text for 32-bit identifiers.
use vstd::prelude::*;
use crate::names::{
    b_ent_amp, b_ent_apos, b_ent_gt, b_ent_lt, b_ent_quot, b_esc_amp, b_esc_gt, b_esc_lt,
    s_ent_amp, s_ent_apos, s_ent_gt, s_ent_lt, s_ent_quot, s_esc_amp, s_esc_gt, s_esc_lt,
};

verus! {

/// The whitespace bytes that separate markup: space, tab, line feed,
/// carriage return.
pub open spec fn is_ws(b: u8) -> bool {
    b == 32 || b == 9 || b == 10 || b == 13
}

pub fn ws_byte(b: u8) -> (r: bool)
    ensures
        r == is_ws(b),
{
    b == 32 || b == 9 || b == 10 || b == 13
}

pub fn bytes_eq(a: &[u8], b: &[u8]) -> (r: bool)
    ensures
        r == (a@ == b@),
{
    if a.len() != b.len() {
        assert(a@ != b@);
        return false;
    }
    let mut i: usize = 0;
    while i < a.len()
        invariant
            i <= a.len(),
            a@.len() == b@.len(),
            forall|k: int| 0 <= k < i ==> a@[k] == b@[k],
        decreases a.len() - i,
    {
        if a[i] != b[i] {
            assert(a@ != b@);
            return false;
        }
        i += 1;
    }
    assert(a@ =~= b@);
    true
}

/// Copies `s[a..b]` into a fresh vector.
pub fn copy_range(s: &[u8], a: usize, b: usize) -> (r: Vec<u8>)
    requires
        a <= b <= s@.len(),
    ensures
        r@ == s@.subrange(a as int, b as int),
{
    let mut out: Vec<u8> = Vec::new();
    let mut i: usize = a;
    while i < b
        invariant
            a <= i <= b <= s@.len(),
            out@ == s@.subrange(a as int, i as int),
        decreases b - i,
    {
        out.push(s[i]);
        assert(out@ =~= s@.subrange(a as int, i + 1 as int));
        i += 1;
    }
    out
}

/// The least index `j >= i` with `s[j] == b`, if any.
pub open spec fn find_from(s: Seq<u8>, i: int, b: u8) -> Option<int>
    decreases s.len() - i when 0 <= i
{
    if i >= s.len() {
        None
    } else if s[i] == b {
        Some(i)
    } else {
        find_from(s, i + 1, b)
    }
}

pub proof fn lemma_find_from(s: Seq<u8>, i: int, b: u8)
    requires
        0 <= i <= s.len(),
    ensures
        match find_from(s, i, b) {
            Some(j) => i <= j < s.len() && s[j] == b,
            None => forall|k: int| i <= k < s.len() ==> s[k] != b,
        },
    decreases s.len() - i,
{
    if i < s.len() && s[i] != b {
        lemma_find_from(s, i + 1, b);
    }
}

pub fn find_byte(s: &[u8], from: usize, b: u8) -> (r: Option<usize>)
    requires
        from <= s@.len(),
    ensures
        match r {
            Some(j) => find_from(s@, from as int, b) == Some(j as int) && from <= j < s@.len(),
            None => find_from(s@, from as int, b) is None,
        },
{
    let mut i: usize = from;
    while i < s.len()
        invariant
            from <= i <= s@.len(),
            find_from(s@, from as int, b) == find_from(s@, i as int, b),
        decreases s.len() - i,
    {
        if s[i] == b {
            return Some(i);
        }
        i += 1;
    }
    None
}

pub open spec fn trim_start(s: Seq<u8>) -> Seq<u8>
    decreases s.len(),
{
    if s.len() > 0 && is_ws(s.first()) {
        trim_start(s.drop_first())
    } else {
        s
    }
}

pub open spec fn trim_end(s: Seq<u8>) -> Seq<u8>
    decreases s.len(),
{
    if s.len() > 0 && is_ws(s.last()) {
        trim_end(s.drop_last())
    } else {
        s
    }
}

/// The content of a text node: the raw bytes with the whitespace at both
/// edges removed.
pub open spec fn trim_ws(s: Seq<u8>) -> Seq<u8> {
    trim_end(trim_start(s))
}

proof fn lemma_trim_start_skip(s: Seq<u8>, a: int)
    requires
        0 <= a <= s.len(),
        forall|k: int| 0 <= k < a ==> is_ws(s[k]),
        a == s.len() || !is_ws(s[a]),
    ensures
        trim_start(s) == s.skip(a),
    decreases a,
{
    if a == 0 {
        assert(s.skip(0) =~= s);
    } else {
        assert(is_ws(s.first()));
        lemma_trim_start_skip(s.drop_first(), a - 1);
        assert(s.drop_first().skip(a - 1) =~= s.skip(a));
    }
}

/// Extracts `trim_ws(s[a..b])` into a fresh vector.
pub fn trimmed_range(s: &[u8], a: usize, b: usize) -> (r: Vec<u8>)
    requires
        a <= b <= s@.len(),
    ensures
        r@ == trim_ws(s@.subrange(a as int, b as int)),
{
    let ghost t = s@.subrange(a as int, b as int);
    let mut i: usize = a;
    while i < b && ws_byte(s[i])
        invariant
            a <= i <= b,
            b <= s@.len(),
            forall|k: int| a <= k < i ==> is_ws(s@[k]),
        decreases b - i,
    {
        i += 1;
    }
    proof {
        lemma_trim_start_skip(t, i - a);
        assert(t.skip(i - a) =~= s@.subrange(i as int, b as int));
    }
    let mut out = copy_range(s, i, b);
    while out.len() > 0 && ws_byte(out[out.len() - 1])
        invariant
            trim_end(s@.subrange(i as int, b as int)) == trim_end(out@),
        decreases out.len(),
    {
        let ghost before = out@;
        out.pop();
        assert(out@ =~= before.drop_last());
    }
    assert(trim_end(out@) == out@);
    out
}

/// The escaped form of one text byte: `&`, `<` and `>` become the
/// predefined entities, every other byte stands for itself.
pub open spec fn esc_byte(b: u8) -> Seq<u8> {
    if b == 38 {
        s_esc_amp()
    } else if b == 60 {
        s_esc_lt()
    } else if b == 62 {
        s_esc_gt()
    } else {
        seq![b]
    }
}

pub open spec fn escape_from(s: Seq<u8>, i: int) -> Seq<u8>
    decreases s.len() - i when 0 <= i
{
    if i >= s.len() {
        Seq::empty()
    } else {
        esc_byte(s[i]) + escape_from(s, i + 1)
    }
}

/// The escaped form of a whole text: each byte escaped in place.
pub open spec fn escape(s: Seq<u8>) -> Seq<u8> {
    escape_from(s, 0)
}

pub fn escape_bytes(s: &[u8]) -> (r: Vec<u8>)
    ensures
        r@ == escape(s@),
{
    let mut out: Vec<u8> = Vec::new();
    let mut i: usize = 0;
    while i < s.len()
        invariant
            i <= s@.len(),
            out@ + escape_from(s@, i as int) == escape(s@),
        decreases s.len() - i,
    {
        let ghost prev = out@;
        let b = s[i];
        if b == 38 {
            let e = b_esc_amp();
            out.extend_from_slice(e.as_slice());
        } else if b == 60 {
            let e = b_esc_lt();
            out.extend_from_slice(e.as_slice());
        } else if b == 62 {
            let e = b_esc_gt();
            out.extend_from_slice(e.as_slice());
        } else {
            out.push(b);
            assert(out@ =~= prev + seq![b]);
        }
        proof {
            assert(out@ == prev + esc_byte(s@[i as int]));
            assert(prev + esc_byte(s@[i as int]) + escape_from(s@, i + 1 as int) =~= prev
                + (esc_byte(s@[i as int]) + escape_from(s@, i + 1 as int)));
        }
        i += 1;
    }
    out
}

pub open spec fn has_prefix(s: Seq<u8>, i: int, p: Seq<u8>) -> bool {
    0 <= i && i + p.len() <= s.len() && s.subrange(i, i + p.len()) == p
}

pub fn prefix_at(s: &[u8], i: usize, p: &[u8]) -> (r: bool)
    requires
        i <= s@.len(),
    ensures
        r == has_prefix(s@, i as int, p@),
{
    let slen: usize = s.len();
    if slen - i < p.len() {
        return false;
    }
    let mut k: usize = 0;
    while k < p.len()
        invariant
            k <= p.len(),
            slen == s@.len(),
            i + p.len() <= slen,
            forall|j: int| 0 <= j < k ==> s@[i + j] == p@[j],
        decreases p.len() - k,
    {
        if s[i + k] != p[k] {
            assert(s@.subrange(i as int, i + p@.len()) != p@);
            return false;
        }
        k += 1;
    }
    assert(s@.subrange(i as int, i + p@.len()) =~= p@);
    true
}

/// Resolves the predefined entities `&amp;` `&lt;` `&gt;` `&quot;` `&apos;`;
/// any other use of `&` is malformed and yields `None`.
pub open spec fn unesc_from(s: Seq<u8>, i: int) -> Option<Seq<u8>>
    decreases s.len() - i when 0 <= i
{
    if i >= s.len() {
        Some(Seq::empty())
    } else if s[i] != 38 {
        match unesc_from(s, i + 1) {
            None => None,
            Some(t) => Some(seq![s[i]] + t),
        }
    } else if has_prefix(s, i + 1, s_ent_amp()) {
        match unesc_from(s, i + 5) {
            None => None,
            Some(t) => Some(seq![38u8] + t),
        }
    } else if has_prefix(s, i + 1, s_ent_lt()) {
        match unesc_from(s, i + 4) {
            None => None,
            Some(t) => Some(seq![60u8] + t),
        }
    } else if has_prefix(s, i + 1, s_ent_gt()) {
        match unesc_from(s, i + 4) {
            None => None,
            Some(t) => Some(seq![62u8] + t),
        }
    } else if has_prefix(s, i + 1, s_ent_quot()) {
        match unesc_from(s, i + 6) {
            None => None,
            Some(t) => Some(seq![34u8] + t),
        }
    } else if has_prefix(s, i + 1, s_ent_apos()) {
        match unesc_from(s, i + 6) {
            None => None,
            Some(t) => Some(seq![39u8] + t),
        }
    } else {
        None
    }
}

pub open spec fn unescape(s: Seq<u8>) -> Option<Seq<u8>> {
    unesc_from(s, 0)
}

pub fn unescape_bytes(s: &[u8]) -> (r: Option<Vec<u8>>)
    ensures
        match r {
            Some(v) => unescape(s@) == Some(v@),
            None => unescape(s@) is None,
        },
{
    let mut out: Vec<u8> = Vec::new();
    let mut i: usize = 0;
    while i < s.len()
        invariant
            i <= s@.len(),
            forall|t: Seq<u8>| unesc_from(s@, i as int) == Some(t) ==> unescape(s@) == Some(
                out@ + t,
            ),
            unesc_from(s@, i as int) is None ==> unescape(s@) is None,
        decreases s.len() - i,
    {
        let ghost prev = out@;
        let b = s[i];
        let ghost iold = i as int;
        if b != 38 {
            out.push(b);
            assert(out@ =~= prev + seq![b]);
            i += 1;
        } else {
            let amp = b_ent_amp();
            let lt = b_ent_lt();
            let gt = b_ent_gt();
            let quot = b_ent_quot();
            let apos = b_ent_apos();
            if prefix_at(s, i + 1, amp.as_slice()) {
                out.push(38);
                assert(out@ =~= prev + seq![38u8]);
                i += 5;
            } else if prefix_at(s, i + 1, lt.as_slice()) {
                out.push(60);
                assert(out@ =~= prev + seq![60u8]);
                i += 4;
            } else if prefix_at(s, i + 1, gt.as_slice()) {
                out.push(62);
                assert(out@ =~= prev + seq![62u8]);
                i += 4;
            } else if prefix_at(s, i + 1, quot.as_slice()) {
                out.push(34);
                assert(out@ =~= prev + seq![34u8]);
                i += 6;
            } else if prefix_at(s, i + 1, apos.as_slice()) {
                out.push(39);
                assert(out@ =~= prev + seq![39u8]);
                i += 6;
            } else {
                assert(unesc_from(s@, iold) is None);
                return None;
            }
        }
        proof {
            let last = out@.last();
            assert forall|t: Seq<u8>| unesc_from(s@, i as int) == Some(t) implies unescape(s@)
                == Some(out@ + t) by {
                assert(unesc_from(s@, iold) == Some(seq![last] + t));
                assert(prev + (seq![last] + t) =~= out@ + t);
            }
        }
    }
    assert(unesc_from(s@, i as int) == Some(Seq::<u8>::empty()));
    assert(out@ + Seq::<u8>::empty() =~= out@);
    Some(out)
}

/// The decimal digits of `n`, most significant first.
pub open spec fn dec_digits(n: nat) -> Seq<u8>
    decreases n,
{
    if n < 10 {
        seq![(48 + n) as u8]
    } else {
        dec_digits(n / 10) + seq![(48 + n % 10) as u8]
    }
}

/// The decimal text of a signed 32-bit value: a leading `-` for negative
/// values, then the digits of the magnitude.
pub open spec fn i32_text(v: int) -> Seq<u8> {
    if v < 0 {
        seq![45u8] + dec_digits((-v) as nat)
    } else {
        dec_digits(v as nat)
    }
}

pub open spec fn all_digits(s: Seq<u8>) -> bool {
    forall|i: int| 0 <= i < s.len() ==> 48 <= #[trigger] s[i] <= 57
}

/// The numeric value of a digit string, most significant digit first.
pub open spec fn digits_val(s: Seq<u8>) -> int
    decreases s.len(),
{
    if s.len() == 0 {
        0
    } else {
        digits_val(s.drop_last()) * 10 + (s.last() - 48)
    }
}

/// What parsing a signed 32-bit decimal accepts: an optional `+` or `-`
/// sign, then one or more digits, denoting a value within the 32-bit range.
pub open spec fn parse_i32(s: Seq<u8>) -> Option<int> {
    let signed = s.len() > 0 && (s[0] == 45 || s[0] == 43);
    let neg = s.len() > 0 && s[0] == 45;
    let ds = if signed {
        s.drop_first()
    } else {
        s
    };
    let v = if neg {
        -digits_val(ds)
    } else {
        digits_val(ds)
    };
    if ds.len() > 0 && all_digits(ds) && -0x8000_0000 <= v <= 0x7fff_ffff {
        Some(v)
    } else {
        None
    }
}

pub proof fn lemma_digits_val_bounds(s: Seq<u8>)
    requires
        all_digits(s),
    ensures
        digits_val(s) >= 0,
        s.len() > 0 ==> digits_val(s) >= digits_val(s.drop_last()),
    decreases s.len(),
{
    if s.len() > 0 {
        assert(all_digits(s.drop_last()));
        lemma_digits_val_bounds(s.drop_last());
    }
}

proof fn lemma_digits_val_monotone(s: Seq<u8>, k: int)
    requires
        all_digits(s),
        0 <= k <= s.len(),
    ensures
        digits_val(s) >= digits_val(s.take(k)),
    decreases s.len() - k,
{
    if k < s.len() {
        lemma_digits_val_monotone(s, k + 1);
        assert(s.take(k + 1).drop_last() =~= s.take(k));
        assert(all_digits(s.take(k + 1)));
        lemma_digits_val_bounds(s.take(k + 1));
    } else {
        assert(s.take(k) =~= s);
    }
}

/// Formats the magnitude held in a 32-bit unsigned value.
fn fmt_u32(n: u32) -> (r: Vec<u8>)
    ensures
        r@ == dec_digits(n as nat),
    decreases n,
{
    if n < 10 {
        let mut out: Vec<u8> = Vec::new();
        out.push(48 + n as u8);
        assert(out@ =~= seq![(48 + n as nat) as u8]);
        out
    } else {
        let mut out = fmt_u32(n / 10);
        let ghost prev = out@;
        out.push(48 + (n % 10) as u8);
        assert(out@ =~= prev + seq![(48 + (n as nat) % 10) as u8]);
        out
    }
}

/// Formats a signed 32-bit value as decimal text.
pub fn fmt_i32(v: i32) -> (r: Vec<u8>)
    ensures
        r@ == i32_text(v as int),
{
    if v < 0 {
        let mag = (-(v as i64)) as u32;
        let mut out: Vec<u8> = Vec::new();
        out.push(45);
        let ds = fmt_u32(mag);
        let ghost prev = out@;
        out.extend_from_slice(ds.as_slice());
        assert(out@ =~= seq![45u8] + dec_digits((-(v as int)) as nat));
        out
    } else {
        fmt_u32(v as u32)
    }
}

/// Parses decimal text as a signed 32-bit value, exactly when
/// `parse_i32` accepts it.
pub fn parse_i32_bytes(s: &[u8]) -> (r: Option<i32>)
    ensures
        match r {
            Some(v) => parse_i32(s@) == Some(v as int),
            None => parse_i32(s@) is None,
        },
{
    let mut i: usize = 0;
    let mut neg = false;
    if s.len() > 0 && (s[0] == 45 || s[0] == 43) {
        neg = s[0] == 45;
        i = 1;
    }
    let ghost ds = if i == 1 {
        s@.drop_first()
    } else {
        s@
    };
    if i >= s.len() {
        assert(ds.len() == 0);
        return None;
    }
    let limit: u64 = if neg {
        0x8000_0000
    } else {
        0x7fff_ffff
    };
    let mut acc: u64 = 0;
    let start = i;
    while i < s.len()
        invariant
            start <= i <= s@.len(),
            start == if s@.len() > 0 && (s@[0] == 45 || s@[0] == 43) {
                1int
            } else {
                0int
            },
            ds == s@.skip(start as int),
            neg == (s@.len() > 0 && s@[0] == 45),
            acc <= limit,
            limit == if neg {
                0x8000_0000u64
            } else {
                0x7fff_ffffu64
            },
            acc as int == digits_val(ds.take(i - start)),
            all_digits(ds.take(i - start)),
        decreases s.len() - i,
    {
        let b = s[i];
        if b < 48 || b > 57 {
            assert(ds[i - start] == b);
            assert(!all_digits(ds));
            return None;
        }
        let ghost k = i - start;
        let ghost acc0 = acc as int;
        acc = acc * 10 + (b - 48) as u64;
        proof {
            assert(ds.take(k + 1).drop_last() =~= ds.take(k));
            assert(ds.take(k + 1).last() == b);
            assert(digits_val(ds.take(k + 1)) == digits_val(ds.take(k)) * 10 + (b - 48));
            assert(acc as int == acc0 * 10 + (b - 48));
        }
        if acc > limit {
            proof {
                let sv = s@;
                let signed = sv.len() > 0 && (sv[0] == 45 || sv[0] == 43);
                assert(ds == (if signed {
                    sv.drop_first()
                } else {
                    sv
                }));
                if all_digits(ds) {
                    lemma_digits_val_monotone(ds, k + 1);
                    assert(digits_val(ds) > limit as int);
                    if neg {
                        assert(!(-0x8000_0000 <= -digits_val(ds)));
                    } else {
                        assert(!(digits_val(ds) <= 0x7fff_ffff));
                    }
                    assert(parse_i32(sv) is None);
                } else {
                    assert(parse_i32(sv) is None);
                }
            }
            return None;
        }
        i += 1;
    }
    assert(ds.take(i - start) =~= ds);
    if neg {
        let v = -(acc as i64);
        Some(v as i32)
    } else {
        Some(acc as i32)
    }
}

/// The decimal text of a value parses back to that value.
pub proof fn lemma_dec_digits(n: nat)
    ensures
        all_digits(dec_digits(n)),
        digits_val(dec_digits(n)) == n,
        dec_digits(n).len() >= 1,
    decreases n,
{
    if n < 10 {
        reveal_with_fuel(digits_val, 2);
        let s = dec_digits(n);
        assert(s == seq![(48 + n) as u8]);
        assert(s.drop_last() =~= Seq::<u8>::empty());
        assert(digits_val(s) == 0 * 10 + ((48 + n) as u8 - 48));
    } else {
        lemma_dec_digits(n / 10);
        let s = dec_digits(n);
        assert(s.drop_last() =~= dec_digits(n / 10));
        assert(s.last() == (48 + n % 10) as u8);
        assert(digits_val(s) == digits_val(dec_digits(n / 10)) * 10 + ((48 + n % 10) as u8 - 48));
        assert((n / 10) * 10 + n % 10 == n) by (nonlinear_arith);
    }
}

pub proof fn lemma_i32_text_round_trip(v: int)
    requires
        -0x8000_0000 <= v <= 0x7fff_ffff,
    ensures
        parse_i32(i32_text(v)) == Some(v),
{
    if v < 0 {
        lemma_dec_digits((-v) as nat);
        let s = i32_text(v);
        assert(s[0] == 45);
        assert(s.drop_first() =~= dec_digits((-v) as nat));
    } else {
        lemma_dec_digits(v as nat);
        let s = i32_text(v);
        assert(48 <= s[0] <= 57);
    }
}

} // verus!

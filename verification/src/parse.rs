//! Exact parsers for the extraction tool's human-readable output: sizes
//! such as `12.5MiB`, clock-style ETAs such as `01:23`, and whole
//! `[download]` progress lines.  All numbers are evaluated in integer
//! arithmetic, rounding toward zero; a string that does not parse yields
//! `None`, never an error.

use vstd::prelude::*;

use crate::text::{
    append_dec, chars_vec, matches_at, push_char, spec_dec, sub_vec, seq_starts_with,
    vec_starts_with,
};
use crate::types::{DownloadProgress, ProgressV};

verus! {

/// Whether `c` is an ASCII decimal digit.
pub open spec fn is_digit(c: char) -> bool {
    '0' as int <= c as int <= '9' as int
}

/// The numeric value of a digit character.
pub open spec fn digit_val(c: char) -> nat
    recommends
        is_digit(c),
{
    (c as int - '0' as int) as nat
}

/// Whether every character of `s` is a digit.
pub open spec fn all_digits(s: Seq<char>) -> bool {
    forall|i: int| 0 <= i < s.len() ==> is_digit(#[trigger] s[i])
}

/// The value of a digit string, most significant digit first.
pub open spec fn digits_val(s: Seq<char>) -> nat
    decreases s.len(),
{
    if s.len() == 0 {
        0
    } else {
        digits_val(s.drop_last()) * 10 + digit_val(s.last())
    }
}

/// Extending a digit string never shrinks its value.
proof fn lemma_digits_val_prefix(s: Seq<char>, i: int)
    requires
        0 <= i <= s.len(),
    ensures
        digits_val(s) >= digits_val(s.subrange(0, i)),
    decreases s.len() - i,
{
    if i == s.len() {
        assert(s.subrange(0, i) =~= s);
    } else {
        let t = s.subrange(0, i + 1);
        assert(t.drop_last() =~= s.subrange(0, i));
        assert(digits_val(t) == digits_val(s.subrange(0, i)) * 10 + digit_val(t.last()));
        lemma_digits_val_prefix(s, i + 1);
    }
}

/// The numeric reading of a whole digit segment, `None` when the segment
/// is empty, holds a non-digit, or overflows `u64`.
pub open spec fn spec_parse_u64(s: Seq<char>) -> Option<u64> {
    if s.len() > 0 && all_digits(s) && digits_val(s) <= u64::MAX {
        Some(digits_val(s) as u64)
    } else {
        None
    }
}

fn exec_is_digit(c: char) -> (r: bool)
    ensures
        r == is_digit(c),
{
    let u = c as u32;
    48 <= u && u <= 57
}

/// Parse `v[from..to]` as a decimal number.
pub fn parse_u64_seg(v: &Vec<char>, from: usize, to: usize) -> (r: Option<u64>)
    requires
        from <= to <= v@.len(),
    ensures
        r == spec_parse_u64(v@.subrange(from as int, to as int)),
{
    let ghost seg = v@.subrange(from as int, to as int);
    if from == to {
        return None;
    }
    let mut acc: u64 = 0;
    let mut i: usize = from;
    while i < to
        invariant
            from <= i <= to <= v@.len(),
            seg == v@.subrange(from as int, to as int),
            all_digits(seg.subrange(0, i - from)),
            acc == digits_val(seg.subrange(0, i - from)),
        decreases to - i,
    {
        let c = v[i];
        proof {
            assert(seg[i - from] == c);
        }
        if !exec_is_digit(c) {
            return None;
        }
        let d = (c as u32 - 48) as u64;
        proof {
            let pre = seg.subrange(0, i - from);
            let ext = seg.subrange(0, i + 1 - from);
            assert(ext.drop_last() =~= pre);
            assert(ext.last() == c);
        }
        if acc > (u64::MAX - d) / 10 {
            proof {
                let ext = seg.subrange(0, i + 1 - from);
                assert(digits_val(ext) == acc * 10 + d);
                assert(acc * 10 + d > u64::MAX) by (nonlinear_arith)
                    requires
                        acc > (u64::MAX - d) / 10,
                        d < 10,
                ;
                lemma_digits_val_prefix(seg, i + 1 - from);
            }
            return None;
        }
        proof {
            assert(acc * 10 + d <= u64::MAX) by (nonlinear_arith)
                requires
                    acc <= (u64::MAX - d) / 10,
                    d < 10,
            ;
        }
        acc = acc * 10 + d;
        i = i + 1;
    }
    proof {
        assert(seg.subrange(0, to - from) =~= seg);
    }
    Some(acc)
}

/// The positions at which character `c` occurs in `s`, in order.
pub open spec fn positions_of(s: Seq<char>, c: char) -> Seq<int>
    decreases s.len(),
{
    if s.len() == 0 {
        seq![]
    } else if s.last() == c {
        positions_of(s.drop_last(), c).push(s.len() - 1)
    } else {
        positions_of(s.drop_last(), c)
    }
}

/// Collect the positions of `c` in `v`, in order.
pub fn find_positions(v: &Vec<char>, c: char) -> (r: Vec<usize>)
    ensures
        r@.map_values(|x: usize| x as int) == positions_of(v@, c),
{
    let n = v.len();
    let mut r: Vec<usize> = Vec::new();
    let mut i: usize = 0;
    while i < n
        invariant
            n == v@.len(),
            i <= n,
            r@.map_values(|x: usize| x as int) == positions_of(v@.subrange(0, i as int), c),
        decreases n - i,
    {
        proof {
            let pre = v@.subrange(0, i as int);
            let ext = v@.subrange(0, i + 1);
            assert(ext.drop_last() =~= pre);
            assert(ext.last() == v@[i as int]);
        }
        if v[i] == c {
            r.push(i);
            proof {
                assert(r@.map_values(|x: usize| x as int) =~= positions_of(
                    v@.subrange(0, i + 1),
                    c,
                ));
            }
        }
        i = i + 1;
    }
    proof {
        assert(v@.subrange(0, n as int) =~= v@);
    }
    r
}

/// Every listed position holds `c` and lies inside `s`.
pub proof fn lemma_positions_sound(s: Seq<char>, c: char)
    ensures
        forall|k: int|
            0 <= k < positions_of(s, c).len() ==> 0 <= #[trigger] positions_of(s, c)[k]
                < s.len() && s[positions_of(s, c)[k]] == c,
    decreases s.len(),
{
    if s.len() > 0 {
        lemma_positions_sound(s.drop_last(), c);
        assert(forall|k: int|
            0 <= k < positions_of(s.drop_last(), c).len() ==> s[#[trigger] positions_of(
                s.drop_last(),
                c,
            )[k]] == s.drop_last()[positions_of(s.drop_last(), c)[k]]);
    }
}

/// Ten to the `k`.
pub open spec fn pow10(k: nat) -> nat
    decreases k,
{
    if k == 0 {
        1
    } else {
        10 * pow10((k - 1) as nat)
    }
}

proof fn lemma_pow10_le(a: nat, b: nat)
    requires
        a <= b,
    ensures
        pow10(a) <= pow10(b),
    decreases b - a,
{
    if a < b {
        lemma_pow10_le(a, (b - 1) as nat);
        assert(pow10(b) == 10 * pow10((b - 1) as nat));
    }
}

/// Occurrences of `c` are exactly the listed positions.
pub proof fn lemma_positions_complete(s: Seq<char>, c: char, k: int)
    requires
        0 <= k < s.len(),
        s[k] == c,
    ensures
        positions_of(s, c).contains(k),
    decreases s.len(),
{
    if k == s.len() - 1 {
        assert(s.last() == c);
        assert(positions_of(s, c).last() == k);
    } else {
        lemma_positions_complete(s.drop_last(), c, k);
        let pre = positions_of(s.drop_last(), c);
        let j = choose|j: int| 0 <= j < pre.len() && pre[j] == k;
        if s.last() == c {
            assert(positions_of(s, c)[j] == k);
        } else {
            assert(positions_of(s, c)[j] == k);
        }
    }
}

/// Ten to the thirtieth still fits comfortably in 128 bits.
proof fn lemma_pow10_30()
    ensures
        pow10(30) == 0xc9f2c9cd04674edea40000000,
{
    reveal_with_fuel(pow10, 31);
}

/// Compute ten to the `k` in 128-bit arithmetic.
fn pow10_u128(k: usize) -> (r: u128)
    requires
        k <= 30,
    ensures
        r == pow10(k as nat),
{
    let mut r: u128 = 1;
    let mut i: usize = 0;
    while i < k
        invariant
            i <= k <= 30,
            r == pow10(i as nat),
        decreases k - i,
    {
        proof {
            lemma_pow10_le(i as nat + 1, 30);
            lemma_pow10_30();
        }
        r = r * 10;
        i = i + 1;
    }
    r
}

/// Whether `c` is an ASCII letter.
pub open spec fn is_alpha(c: char) -> bool {
    ('a' as int <= c as int <= 'z' as int) || ('A' as int <= c as int <= 'Z' as int)
}

fn exec_is_alpha(c: char) -> (r: bool)
    ensures
        r == is_alpha(c),
{
    let u = c as u32;
    (97 <= u && u <= 122) || (65 <= u && u <= 90)
}

/// The digits and dots of `s`, in order.
pub open spec fn numeric_part(s: Seq<char>) -> Seq<char>
    decreases s.len(),
{
    if s.len() == 0 {
        seq![]
    } else if is_digit(s.last()) || s.last() == '.' {
        numeric_part(s.drop_last()).push(s.last())
    } else {
        numeric_part(s.drop_last())
    }
}

/// The ASCII letters of `s`, in order.
pub open spec fn alpha_part(s: Seq<char>) -> Seq<char>
    decreases s.len(),
{
    if s.len() == 0 {
        seq![]
    } else if is_alpha(s.last()) {
        alpha_part(s.drop_last()).push(s.last())
    } else {
        alpha_part(s.drop_last())
    }
}

/// Every character of the numeric part is a digit or a dot.
proof fn lemma_numeric_part_chars(s: Seq<char>)
    ensures
        forall|i: int|
            0 <= i < numeric_part(s).len() ==> is_digit(#[trigger] numeric_part(s)[i])
                || numeric_part(s)[i] == '.',
    decreases s.len(),
{
    if s.len() > 0 {
        lemma_numeric_part_chars(s.drop_last());
        let pre = numeric_part(s.drop_last());
        if is_digit(s.last()) || s.last() == '.' {
            assert forall|i: int|
                0 <= i < numeric_part(s).len() implies is_digit(#[trigger] numeric_part(s)[i])
                || numeric_part(s)[i] == '.' by {
                if i < pre.len() {
                    assert(numeric_part(s)[i] == pre[i]);
                } else {
                    assert(numeric_part(s)[i] == s.last());
                }
            }
        }
    }
}

/// Split `v` into its numeric part and its letter part.
fn partition_chars(v: &Vec<char>) -> (r: (Vec<char>, Vec<char>))
    ensures
        r.0@ == numeric_part(v@),
        r.1@ == alpha_part(v@),
{
    let n = v.len();
    let mut num: Vec<char> = Vec::new();
    let mut alpha: Vec<char> = Vec::new();
    let mut i: usize = 0;
    while i < n
        invariant
            n == v@.len(),
            i <= n,
            num@ == numeric_part(v@.subrange(0, i as int)),
            alpha@ == alpha_part(v@.subrange(0, i as int)),
        decreases n - i,
    {
        proof {
            let pre = v@.subrange(0, i as int);
            let ext = v@.subrange(0, i + 1);
            assert(ext.drop_last() =~= pre);
            assert(ext.last() == v@[i as int]);
        }
        let c = v[i];
        if exec_is_digit(c) || c == '.' {
            num.push(c);
        } else if exec_is_alpha(c) {
            alpha.push(c);
        }
        i = i + 1;
    }
    proof {
        assert(v@.subrange(0, n as int) =~= v@);
    }
    (num, alpha)
}

/// The byte multiplier a size suffix stands for, over its lower-cased
/// letters: binary units, with the plain and the `i` spellings alike.
pub open spec fn spec_unit_multiplier(u: Seq<char>) -> Option<u64> {
    if u == "b"@ {
        Some(1u64)
    } else if u == "kb"@ || u == "kib"@ {
        Some(1024u64)
    } else if u == "mb"@ || u == "mib"@ {
        Some(1048576u64)
    } else if u == "gb"@ || u == "gib"@ {
        Some(1073741824u64)
    } else {
        None
    }
}

fn unit_multiplier(u: &Vec<char>) -> (r: Option<u64>)
    ensures
        r == spec_unit_multiplier(u@),
{
    let s = crate::text::string_of_chars(u);
    if s == String::from_str("b") {
        Some(1u64)
    } else if s == String::from_str("kb") || s == String::from_str("kib") {
        Some(1024u64)
    } else if s == String::from_str("mb") || s == String::from_str("mib") {
        Some(1048576u64)
    } else if s == String::from_str("gb") || s == String::from_str("gib") {
        Some(1073741824u64)
    } else {
        None
    }
}

/// The reading of a tool-reported size such as `12.5MiB`: the digits and
/// at most one dot form the number, the letters the unit, and everything
/// else is ignored.  The value is the exact product rounded toward zero;
/// a malformed number, an unknown unit, a fraction of more than thirty
/// digits or a value above `u64::MAX` gives `None`.
pub open spec fn spec_parse_size(s: Seq<char>) -> Option<u64> {
    let num = numeric_part(s);
    let unit = crate::text::spec_lower(alpha_part(s));
    let dots = positions_of(num, '.');
    if dots.len() > 1 {
        None
    } else {
        let ip = if dots.len() == 1 {
            num.subrange(0, dots[0])
        } else {
            num
        };
        let fp = if dots.len() == 1 {
            num.subrange(dots[0] + 1, num.len() as int)
        } else {
            Seq::<char>::empty()
        };
        if ip.len() + fp.len() == 0 || fp.len() > 30 {
            None
        } else if spec_unit_multiplier(unit) is None {
            None
        } else if digits_val(ip) > u64::MAX || digits_val(fp) > u64::MAX {
            None
        } else {
            let mult = spec_unit_multiplier(unit)->Some_0;
            let value = digits_val(ip) * (mult as nat) + digits_val(fp) * (mult as nat) / pow10(fp.len());
            if value <= u64::MAX {
                Some(value as u64)
            } else {
                None
            }
        }
    }
}

/// Parse a tool-reported size string into bytes.
pub fn parse_size(size_str: &str) -> (r: Option<u64>)
    ensures
        r == spec_parse_size(size_str@),
{
    let v = chars_vec(size_str);
    parse_size_vec(&v)
}

/// Parse a tool-reported size, given as a character vector.
pub fn parse_size_vec(v: &Vec<char>) -> (r: Option<u64>)
    ensures
        r == spec_parse_size(v@),
{
    let (num, alpha) = partition_chars(v);
    let lowered = crate::text::lower_vec(&alpha);
    let dots = find_positions(&num, '.');
    proof {
        lemma_positions_sound(num@, '.');
        lemma_numeric_part_chars(v@);
    }
    if dots.len() > 1 {
        return None;
    }
    let num_len = num.len();
    proof {
        assert(num_len == num@.len());
        if dots@.len() == 1 {
            assert(dots@.map_values(|x: usize| x as int)[0] == dots@[0] as int);
            assert(positions_of(num@, '.')[0] == dots@[0] as int);
            assert(0 <= (dots@[0] as int) < num@.len());
        }
    }
    let (ip_from, ip_to, fp_from, fp_to): (usize, usize, usize, usize) = if dots.len() == 1 {
        (0, dots[0], dots[0] + 1, num_len)
    } else {
        (0, num_len, num_len, num_len)
    };
    let ghost ip = num@.subrange(ip_from as int, ip_to as int);
    let ghost fp = num@.subrange(fp_from as int, fp_to as int);
    proof {
        if dots.len() != 1 {
            assert(ip =~= num@);
            assert(fp =~= Seq::<char>::empty());
        }
        assert forall|k: int| 0 <= k < ip.len() implies is_digit(ip[k]) by {
            if ip[k] == '.' {
                lemma_positions_complete(num@, '.', ip_from + k);
                let j = choose|j: int|
                    0 <= j < positions_of(num@, '.').len() && positions_of(num@, '.')[j] == ip_from
                        + k;
            }
        }
        assert forall|k: int| 0 <= k < fp.len() implies is_digit(fp[k]) by {
            if fp[k] == '.' {
                lemma_positions_complete(num@, '.', fp_from + k);
                let j = choose|j: int|
                    0 <= j < positions_of(num@, '.').len() && positions_of(num@, '.')[j] == fp_from
                        + k;
            }
        }
    }
    if ip_to - ip_from == 0 && fp_to - fp_from == 0 {
        return None;
    }
    if fp_to - fp_from > 30 {
        return None;
    }
    let mult = match unit_multiplier(&lowered) {
        Some(m) => m,
        None => {
            return None;
        },
    };
    let ip_val: u64 = if ip_to == ip_from {
        0
    } else {
        match parse_u64_seg(&num, ip_from, ip_to) {
            Some(x) => x,
            None => {
                return None;
            },
        }
    };
    let fp_val: u64 = if fp_to == fp_from {
        0
    } else {
        match parse_u64_seg(&num, fp_from, fp_to) {
            Some(x) => x,
            None => {
                return None;
            },
        }
    };
    let p = pow10_u128(fp_to - fp_from);
    proof {
        lemma_pow10_le(0, (fp_to - fp_from) as nat);
        assert(ip_val as u128 * mult as u128 <= 0xffffffffffffffffu128 * 1073741824u128)
            by (nonlinear_arith)
            requires
                ip_val <= u64::MAX,
                mult <= 1073741824u64,
        ;
        assert(fp_val as u128 * mult as u128 <= 0xffffffffffffffffu128 * 1073741824u128)
            by (nonlinear_arith)
            requires
                fp_val <= u64::MAX,
                mult <= 1073741824u64,
        ;
        assert((fp_val as int) * (mult as int) / (p as int) <= (fp_val as int) * (mult as int))
            by (nonlinear_arith)
            requires
                p >= 1,
                fp_val >= 0,
                mult >= 0,
        ;
    }
    let value: u128 = ip_val as u128 * mult as u128 + (fp_val as u128 * mult as u128) / p;
    if value > u64::MAX as u128 {
        None
    } else {
        Some(value as u64)
    }
}

/// The reading of a clock-style ETA: `MM:SS` with one colon, `HH:MM:SS`
/// with two; each field a plain decimal number.  Any other shape, or a
/// total beyond `u64::MAX` seconds, gives `None`.
pub open spec fn spec_parse_eta(s: Seq<char>) -> Option<u64> {
    let cols = positions_of(s, ':');
    if cols.len() == 1 {
        let m = spec_parse_u64(s.subrange(0, cols[0]));
        let sec = spec_parse_u64(s.subrange(cols[0] + 1, s.len() as int));
        if m is Some && sec is Some && m->Some_0 * 60 + sec->Some_0 <= u64::MAX {
            Some((m->Some_0 * 60 + sec->Some_0) as u64)
        } else {
            None
        }
    } else if cols.len() == 2 {
        let h = spec_parse_u64(s.subrange(0, cols[0]));
        let m = spec_parse_u64(s.subrange(cols[0] + 1, cols[1]));
        let sec = spec_parse_u64(s.subrange(cols[1] + 1, s.len() as int));
        if h is Some && m is Some && sec is Some && h->Some_0 * 3600 + m->Some_0 * 60 + sec->Some_0
            <= u64::MAX {
            Some((h->Some_0 * 3600 + m->Some_0 * 60 + sec->Some_0) as u64)
        } else {
            None
        }
    } else {
        None
    }
}

/// Parse a clock-style ETA string into whole seconds.
pub fn parse_eta(eta_str: &str) -> (r: Option<u64>)
    ensures
        r == spec_parse_eta(eta_str@),
{
    let v = chars_vec(eta_str);
    parse_eta_vec(&v)
}

/// Parse a clock-style ETA, given as a character vector.
pub fn parse_eta_vec(v: &Vec<char>) -> (r: Option<u64>)
    ensures
        r == spec_parse_eta(v@),
{
    let n = v.len();
    let cols = find_positions(v, ':');
    proof {
        lemma_positions_sound(v@, ':');
    }
    if cols.len() == 1 {
        let m = match parse_u64_seg(v, 0, cols[0]) {
            Some(x) => x,
            None => {
                return None;
            },
        };
        let sec = match parse_u64_seg(v, cols[0] + 1, n) {
            Some(x) => x,
            None => {
                return None;
            },
        };
        let total: u128 = m as u128 * 60 + sec as u128;
        if total > u64::MAX as u128 {
            None
        } else {
            Some(total as u64)
        }
    } else if cols.len() == 2 {
        proof {
            assert(cols@[0] != cols@[1]) by {
                let ghost ps = positions_of(v@, ':');
                assert(ps[0] < ps[1]) by {
                    lemma_positions_increasing(v@, ':');
                }
            }
        }
        if cols[1] < cols[0] + 1 {
            proof {
                lemma_positions_increasing(v@, ':');
            }
            return None;
        }
        let h = match parse_u64_seg(v, 0, cols[0]) {
            Some(x) => x,
            None => {
                return None;
            },
        };
        let m = match parse_u64_seg(v, cols[0] + 1, cols[1]) {
            Some(x) => x,
            None => {
                return None;
            },
        };
        let sec = match parse_u64_seg(v, cols[1] + 1, n) {
            Some(x) => x,
            None => {
                return None;
            },
        };
        let total: u128 = h as u128 * 3600 + m as u128 * 60 + sec as u128;
        if total > u64::MAX as u128 {
            None
        } else {
            Some(total as u64)
        }
    } else {
        None
    }
}

/// Listed positions are strictly increasing.
proof fn lemma_positions_increasing(s: Seq<char>, c: char)
    ensures
        forall|a: int, b: int|
            0 <= a < b < positions_of(s, c).len() ==> #[trigger] positions_of(s, c)[a]
                < #[trigger] positions_of(s, c)[b],
    decreases s.len(),
{
    if s.len() > 0 {
        lemma_positions_increasing(s.drop_last(), c);
        lemma_positions_sound(s.drop_last(), c);
        let pre = positions_of(s.drop_last(), c);
        let ps = positions_of(s, c);
        if s.last() == c {
            assert forall|a: int, b: int| 0 <= a < b < ps.len() implies ps[a] < ps[b] by {
                if b == ps.len() - 1 {
                    assert(ps[a] == pre[a]);
                    assert(pre[a] < s.drop_last().len());
                    assert(ps[b] == s.len() - 1);
                } else {
                    assert(ps[a] == pre[a] && ps[b] == pre[b]);
                }
            }
        }
    }
}


/// Whether `c` is ASCII whitespace.
pub open spec fn is_space(c: char) -> bool {
    c == ' ' || c == '\t' || c == '\r' || c == '\n'
}

fn exec_is_space(c: char) -> (r: bool)
    ensures
        r == is_space(c),
{
    c == ' ' || c == '\t' || c == '\r' || c == '\n'
}

/// `s` without trailing ASCII whitespace.
pub open spec fn trim_back(s: Seq<char>) -> Seq<char>
    decreases s.len(),
{
    if s.len() > 0 && is_space(s.last()) {
        trim_back(s.drop_last())
    } else {
        s
    }
}

/// `s` without leading ASCII whitespace.
pub open spec fn trim_front(s: Seq<char>) -> Seq<char>
    decreases s.len(),
{
    if s.len() > 0 && is_space(s[0]) {
        trim_front(s.subrange(1, s.len() as int))
    } else {
        s
    }
}

/// `s` without leading or trailing ASCII whitespace.
pub open spec fn spec_trim(s: Seq<char>) -> Seq<char> {
    trim_front(trim_back(s))
}

/// Strip leading and trailing ASCII whitespace from a character vector.
pub fn trim_vec(v: &Vec<char>) -> (r: Vec<char>)
    ensures
        r@ == spec_trim(v@),
{
    let mut hi: usize = v.len();
    proof {
        assert(v@.subrange(0, hi as int) =~= v@);
    }
    while hi > 0 && exec_is_space(v[hi - 1])
        invariant
            hi <= v@.len(),
            trim_back(v@) == trim_back(v@.subrange(0, hi as int)),
        decreases hi,
    {
        proof {
            let cur = v@.subrange(0, hi as int);
            assert(cur.drop_last() =~= v@.subrange(0, hi - 1));
        }
        hi = hi - 1;
    }
    proof {
        let cur = v@.subrange(0, hi as int);
        assert(trim_back(cur) == cur);
    }
    let mut lo: usize = 0;
    while lo < hi && exec_is_space(v[lo])
        invariant
            lo <= hi <= v@.len(),
            trim_back(v@) == trim_back(v@.subrange(0, hi as int)),
            trim_back(v@.subrange(0, hi as int)) == v@.subrange(0, hi as int),
            spec_trim(v@) == trim_front(v@.subrange(lo as int, hi as int)),
        decreases hi - lo,
    {
        proof {
            let cur = v@.subrange(lo as int, hi as int);
            assert(cur.subrange(1, cur.len() as int) =~= v@.subrange(lo + 1, hi as int));
        }
        lo = lo + 1;
    }
    proof {
        let cur = v@.subrange(lo as int, hi as int);
        assert(trim_front(cur) == cur);
    }
    sub_vec(v, lo, hi)
}

/// The first position at or after `i` where `pat` occurs in `s`.
pub open spec fn first_match_from(s: Seq<char>, pat: Seq<char>, i: int) -> Option<int>
    decreases s.len() - i,
{
    if i + pat.len() > s.len() {
        None
    } else if matches_at(s, pat, i) {
        Some(i)
    } else {
        first_match_from(s, pat, i + 1)
    }
}

/// Find the first occurrence of `pat` in `v`.
pub fn find_first(v: &Vec<char>, pat: &Vec<char>) -> (r: Option<usize>)
    ensures
        (r is Some) == (first_match_from(v@, pat@, 0) is Some),
        r is Some ==> r->Some_0 as int == first_match_from(v@, pat@, 0)->Some_0 && matches_at(
            v@,
            pat@,
            r->Some_0 as int,
        ),
{
    let n = v.len();
    let m = pat.len();
    if m > n {
        return None;
    }
    let mut i: usize = 0;
    while i <= n - m
        invariant
            n == v@.len(),
            m == pat@.len(),
            m <= n,
            i <= n - m + 1,
            first_match_from(v@, pat@, 0) == first_match_from(v@, pat@, i as int),
        decreases n - m + 1 - i,
    {
        if crate::text::check_match(v, pat, i) {
            return Some(i);
        }
        i = i + 1;
    }
    None
}

/// Whether every character of `v[from..to]` is a digit.
fn check_all_digits(v: &Vec<char>, from: usize, to: usize) -> (r: bool)
    requires
        from <= to <= v@.len(),
    ensures
        r == all_digits(v@.subrange(from as int, to as int)),
{
    let ghost seg = v@.subrange(from as int, to as int);
    let mut i: usize = from;
    while i < to
        invariant
            from <= i <= to <= v@.len(),
            seg == v@.subrange(from as int, to as int),
            all_digits(seg.subrange(0, i - from)),
        decreases to - i,
    {
        if !exec_is_digit(v[i]) {
            proof {
                assert(seg[i - from] == v@[i as int]);
            }
            return false;
        }
        proof {
            let pre = seg.subrange(0, i - from);
            let ext = seg.subrange(0, i + 1 - from);
            assert(forall|k: int| 0 <= k < ext.len() ==> ext[k] == seg[k]);
        }
        i = i + 1;
    }
    proof {
        assert(seg.subrange(0, to - from) =~= seg);
    }
    true
}

/// The reading of the percent token before the `%` sign, in tenths of a
/// percent: the whole part times ten plus the first fractional digit.
pub open spec fn spec_parse_tenths(tok: Seq<char>) -> Option<u64> {
    let dots = positions_of(tok, '.');
    if dots.len() > 1 {
        None
    } else {
        let ip = if dots.len() == 1 {
            tok.subrange(0, dots[0])
        } else {
            tok
        };
        let fp = if dots.len() == 1 {
            tok.subrange(dots[0] + 1, tok.len() as int)
        } else {
            Seq::<char>::empty()
        };
        if !(all_digits(ip) && all_digits(fp)) || ip.len() + fp.len() == 0 {
            None
        } else {
            let t = digits_val(ip) * 10 + (if fp.len() > 0 {
                digit_val(fp[0])
            } else {
                0
            });
            if t <= u64::MAX {
                Some(t as u64)
            } else {
                None
            }
        }
    }
}

/// Parse the percent token into tenths of a percent.
fn parse_tenths(tok: &Vec<char>) -> (r: Option<u64>)
    ensures
        r == spec_parse_tenths(tok@),
{
    let dots = find_positions(tok, '.');
    proof {
        lemma_positions_sound(tok@, '.');
    }
    if dots.len() > 1 {
        return None;
    }
    let n = tok.len();
    proof {
        if dots@.len() == 1 {
            assert(dots@.map_values(|x: usize| x as int)[0] == dots@[0] as int);
            assert(positions_of(tok@, '.')[0] == dots@[0] as int);
        }
    }
    let (ip_from, ip_to, fp_from, fp_to): (usize, usize, usize, usize) = if dots.len() == 1 {
        (0, dots[0], dots[0] + 1, n)
    } else {
        (0, n, n, n)
    };
    let ghost ip = tok@.subrange(ip_from as int, ip_to as int);
    let ghost fp = tok@.subrange(fp_from as int, fp_to as int);
    proof {
        if dots@.len() != 1 {
            assert(ip =~= tok@);
            assert(fp =~= Seq::<char>::empty());
        }
    }
    if !check_all_digits(tok, ip_from, ip_to) {
        return None;
    }
    if !check_all_digits(tok, fp_from, fp_to) {
        return None;
    }
    if ip_to - ip_from == 0 && fp_to - fp_from == 0 {
        return None;
    }
    let ip_val: u64 = if ip_to == ip_from {
        0
    } else {
        match parse_u64_seg(tok, ip_from, ip_to) {
            Some(x) => x,
            None => {
                proof {
                    assert(digits_val(ip) > u64::MAX);
                }
                return None;
            },
        }
    };
    let d: u64 = if fp_to > fp_from {
        let c = tok[fp_from];
        proof {
            assert(fp[0] == c);
        }
        (c as u32 - 48) as u64
    } else {
        0
    };
    let t: u128 = ip_val as u128 * 10 + d as u128;
    if t > u64::MAX as u128 {
        None
    } else {
        Some(t as u64)
    }
}

/// The downloaded-bytes reading derived from a total and a percentage in
/// tenths, saturating at `u64::MAX`.
pub open spec fn spec_downloaded(total: u64, t: u64) -> u64 {
    let d = (total as nat) * (t as nat) / 1000;
    if d > u64::MAX {
        u64::MAX as u64
    } else {
        d as u64
    }
}

/// The total and downloaded byte fields of a progress line: the token
/// between `" of "` and the next space, read as a size.
pub open spec fn spec_size_fields(line: Seq<char>, t: u64) -> (u64, u64) {
    match first_match_from(line, " of "@, 0) {
        Option::None => (0u64, 0u64),
        Option::Some(oi) => {
            let rest = line.subrange(oi + 4, line.len() as int);
            let sp = positions_of(rest, ' ');
            if sp.len() == 0 {
                (0u64, 0u64)
            } else {
                let tok = rest.subrange(0, sp[0]);
                let total = match spec_parse_size(tok) {
                    Option::Some(x) => x,
                    Option::None => 0u64,
                };
                (total, spec_downloaded(total, t))
            }
        },
    }
}

/// The ETA field of a progress line: the trimmed tail after `" ETA "`.
pub open spec fn spec_eta_field(line: Seq<char>) -> u64 {
    match first_match_from(line, " ETA "@, 0) {
        Option::None => 0u64,
        Option::Some(ei) => {
            let tok = spec_trim(line.subrange(ei + 5, line.len() as int));
            match spec_parse_eta(tok) {
                Option::Some(x) => x,
                Option::None => 0u64,
            }
        },
    }
}

/// The status line shown for a percentage in tenths.
pub open spec fn spec_progress_status(t: u64) -> Seq<char> {
    "Downloading: "@ + spec_dec((t / 10) as nat) + seq!['.'] + spec_dec((t % 10) as nat)
        + seq!['%']
}

/// The reading of one line of tool output as a progress record.  A
/// `[download]` line with a percentage yields the percentage (in tenths),
/// the size and ETA fields where present, and a `Downloading:` status; a
/// muxing line yields a `Processing` status; anything else is no signal.
pub open spec fn spec_parse_progress_line(line: Seq<char>) -> Option<ProgressV> {
    if seq_starts_with(line, "[download]"@) && positions_of(line, '%').len() > 0 {
        let pi = positions_of(line, '%')[0];
        let spaces = positions_of(line.subrange(0, pi), ' ');
        if spaces.len() == 0 {
            None
        } else {
            let ps = spaces.last();
            match spec_parse_tenths(line.subrange(ps + 1, pi)) {
                Option::None => None,
                Option::Some(t) => {
                    let fields = spec_size_fields(line, t);
                    Some(
                        ProgressV {
                            downloaded_bytes: fields.1,
                            total_bytes: fields.0,
                            eta_seconds: spec_eta_field(line),
                            status: spec_progress_status(t),
                        },
                    )
                },
            }
        }
    } else if first_match_from(line, "Merger"@, 0) is Some || first_match_from(
        line,
        "ffmpeg"@,
        0,
    ) is Some {
        Some(
            ProgressV {
                downloaded_bytes: 0,
                total_bytes: 0,
                eta_seconds: 0,
                status: "Processing video..."@,
            },
        )
    } else {
        None
    }
}

/// Parse one line of the tool's output into a progress record.
pub fn parse_progress_line(line: &str) -> (r: Option<DownloadProgress>)
    ensures
        (r is Some) == (spec_parse_progress_line(line@) is Some),
        r is Some ==> r->Some_0@ == spec_parse_progress_line(line@)->Some_0,
{
    let v = chars_vec(line);
    let n = v.len();
    let dl_pat = chars_vec("[download]");
    let starts = vec_starts_with(&v, &dl_pat);
    let pct = find_positions(&v, '%');
    proof {
        lemma_positions_sound(v@, '%');
        if pct@.len() > 0 {
            assert(pct@.map_values(|x: usize| x as int)[0] == pct@[0] as int);
            assert(positions_of(v@, '%')[0] == pct@[0] as int);
        }
    }
    if starts && pct.len() > 0 {
        let pi = pct[0];
        let head = sub_vec(&v, 0, pi);
        let spaces = find_positions(&head, ' ');
        proof {
            lemma_positions_sound(head@, ' ');
        }
        if spaces.len() == 0 {
            return None;
        }
        let ps = spaces[spaces.len() - 1];
        proof {
            let k = spaces@.len() - 1;
            assert(spaces@.map_values(|x: usize| x as int)[k] == spaces@[k] as int);
            assert(positions_of(head@, ' ')[k] == spaces@[k] as int);
            assert(positions_of(head@, ' ').last() == ps as int);
        }
        let tok = sub_vec(&v, ps + 1, pi);
        let t = match parse_tenths(&tok) {
            Some(t) => t,
            None => {
                return None;
            },
        };
        let of_pat = chars_vec(" of ");
        proof {
            reveal_strlit(" of ");
            assert(" of "@.len() == 4);
        }
        let (total, downloaded): (u64, u64) = match find_first(&v, &of_pat) {
            None => (0, 0),
            Some(oi) => {
                let rest = sub_vec(&v, oi + 4, n);
                let sp = find_positions(&rest, ' ');
                proof {
                    lemma_positions_sound(rest@, ' ');
                    if sp@.len() > 0 {
                        assert(sp@.map_values(|x: usize| x as int)[0] == sp@[0] as int);
                        assert(positions_of(rest@, ' ')[0] == sp@[0] as int);
                    }
                }
                if sp.len() == 0 {
                    (0, 0)
                } else {
                    let size_tok = sub_vec(&rest, 0, sp[0]);
                    let total = match parse_size_vec(&size_tok) {
                        Some(x) => x,
                        None => 0,
                    };
                    proof {
                        assert(total as u128 * t as u128 <= 0xffffffffffffffffu128
                            * 0xffffffffffffffffu128) by (nonlinear_arith)
                            requires
                                total <= u64::MAX,
                                t <= u64::MAX,
                        ;
                    }
                    let dl: u128 = total as u128 * t as u128 / 1000;
                    let downloaded: u64 = if dl > u64::MAX as u128 {
                        u64::MAX
                    } else {
                        dl as u64
                    };
                    (total, downloaded)
                }
            },
        };
        let eta_pat = chars_vec(" ETA ");
        proof {
            reveal_strlit(" ETA ");
            assert(" ETA "@.len() == 5);
        }
        let eta: u64 = match find_first(&v, &eta_pat) {
            None => 0,
            Some(ei) => {
                let tail = sub_vec(&v, ei + 5, n);
                let trimmed = trim_vec(&tail);
                match parse_eta_vec(&trimmed) {
                    Some(x) => x,
                    None => 0,
                }
            },
        };
        let mut status = String::from_str("Downloading: ");
        append_dec(&mut status, t / 10);
        push_char(&mut status, '.');
        append_dec(&mut status, t % 10);
        push_char(&mut status, '%');
        proof {
            assert(status@ =~= spec_progress_status(t));
        }
        Some(
            DownloadProgress {
                downloaded_bytes: downloaded,
                total_bytes: total,
                eta_seconds: eta,
                status,
            },
        )
    } else {
        let merger_pat = chars_vec("Merger");
        let ffmpeg_pat = chars_vec("ffmpeg");
        if find_first(&v, &merger_pat).is_some() || find_first(&v, &ffmpeg_pat).is_some() {
            Some(
                DownloadProgress {
                    downloaded_bytes: 0,
                    total_bytes: 0,
                    eta_seconds: 0,
                    status: String::from_str("Processing video..."),
                },
            )
        } else {
            None
        }
    }
}


/// The percentage (in tenths) carried by one line of tool output, where
/// the line is a `[download]` line and the token before its first `%`
/// parses; the secondary signal behind the file-size and time estimates.
pub open spec fn spec_parse_progress_percent(line: Seq<char>) -> Option<u64> {
    if seq_starts_with(line, "[download]"@) && positions_of(line, '%').len() > 0 {
        let pi = positions_of(line, '%')[0];
        let spaces = positions_of(line.subrange(0, pi), ' ');
        if spaces.len() == 0 {
            None
        } else {
            spec_parse_tenths(line.subrange(spaces.last() + 1, pi))
        }
    } else {
        None
    }
}

/// Parse the tool-reported percentage out of one output line.
pub fn parse_progress_percent(line: &str) -> (r: Option<u64>)
    ensures
        r == spec_parse_progress_percent(line@),
{
    let v = chars_vec(line);
    let dl_pat = chars_vec("[download]");
    let starts = vec_starts_with(&v, &dl_pat);
    let pct = find_positions(&v, '%');
    proof {
        lemma_positions_sound(v@, '%');
        if pct@.len() > 0 {
            assert(pct@.map_values(|x: usize| x as int)[0] == pct@[0] as int);
            assert(positions_of(v@, '%')[0] == pct@[0] as int);
        }
    }
    if !(starts && pct.len() > 0) {
        return None;
    }
    let pi = pct[0];
    let head = sub_vec(&v, 0, pi);
    let spaces = find_positions(&head, ' ');
    proof {
        lemma_positions_sound(head@, ' ');
    }
    if spaces.len() == 0 {
        return None;
    }
    let ps = spaces[spaces.len() - 1];
    proof {
        let k = spaces@.len() - 1;
        assert(spaces@.map_values(|x: usize| x as int)[k] == spaces@[k] as int);
        assert(positions_of(head@, ' ')[k] == spaces@[k] as int);
        assert(positions_of(head@, ' ').last() == ps as int);
    }
    let tok = sub_vec(&v, ps + 1, pi);
    parse_tenths(&tok)
}

} // verus!

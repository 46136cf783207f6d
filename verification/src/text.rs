//! Character-level utilities shared by the query and statement builders.
//!
//! Exec code works on `Vec<char>`; two small trusted bridges move between
//! `Vec<char>` and `String`/`&str`. Every transformation is specified over
//! `Seq<char>`.

use vstd::prelude::*;

verus! {

// ---------------------------------------------------------------------------
// Bridges between `str`/`String` and `Vec<char>`
// ---------------------------------------------------------------------------

/// Relies on str::chars / Iterator::collect: the characters of a string,
/// in order, collected into a vector.
#[verifier::external_body]
pub fn str_chars(s: &str) -> (r: Vec<char>)
    ensures
        r@ == s@,
{
    s.chars().collect()
}

/// Relies on Iterator::collect for String: the characters of the vector,
/// in order, joined into a string.
#[verifier::external_body]
pub fn chars_to_string(v: &Vec<char>) -> (r: String)
    ensures
        r@ == v@,
{
    v.iter().collect()
}

// ---------------------------------------------------------------------------
// Case folding (ASCII)
// ---------------------------------------------------------------------------

pub open spec fn lower_char(c: char) -> char {
    if 'A' <= c && c <= 'Z' {
        (((c as u8) + 32) as char)
    } else {
        c
    }
}

pub open spec fn upper_char(c: char) -> char {
    if 'a' <= c && c <= 'z' {
        (((c as u8) - 32) as char)
    } else {
        c
    }
}

pub open spec fn lower_seq(s: Seq<char>) -> Seq<char> {
    s.map_values(|c: char| lower_char(c))
}

pub open spec fn upper_seq(s: Seq<char>) -> Seq<char> {
    s.map_values(|c: char| upper_char(c))
}

/// ASCII-lowercase every character of the vector.
pub fn lower_chars(v: &Vec<char>) -> (r: Vec<char>)
    ensures
        r@ == lower_seq(v@),
{
    let mut out: Vec<char> = Vec::new();
    let mut i: usize = 0;
    while i < v.len()
        invariant
            i <= v.len(),
            out@ == lower_seq(v@.take(i as int)),
        decreases v.len() - i,
    {
        let c = v[i];
        let lc = if 'A' <= c && c <= 'Z' {
            ((c as u8) + 32) as char
        } else {
            c
        };
        out.push(lc);
        proof {
            assert(v@.take(i + 1 as int) =~= v@.take(i as int).push(v@[i as int]));
            assert(lower_seq(v@.take(i + 1 as int)) =~= lower_seq(v@.take(i as int)).push(
                lower_char(v@[i as int]),
            ));
        }
        i += 1;
    }
    proof {
        assert(v@.take(v@.len() as int) =~= v@);
    }
    out
}

/// ASCII-uppercase every character of the vector.
pub fn upper_chars(v: &Vec<char>) -> (r: Vec<char>)
    ensures
        r@ == upper_seq(v@),
{
    let mut out: Vec<char> = Vec::new();
    let mut i: usize = 0;
    while i < v.len()
        invariant
            i <= v.len(),
            out@ == upper_seq(v@.take(i as int)),
        decreases v.len() - i,
    {
        let c = v[i];
        let uc = if 'a' <= c && c <= 'z' {
            ((c as u8) - 32) as char
        } else {
            c
        };
        out.push(uc);
        proof {
            assert(v@.take(i + 1 as int) =~= v@.take(i as int).push(v@[i as int]));
            assert(upper_seq(v@.take(i + 1 as int)) =~= upper_seq(v@.take(i as int)).push(
                upper_char(v@[i as int]),
            ));
        }
        i += 1;
    }
    proof {
        assert(v@.take(v@.len() as int) =~= v@);
    }
    out
}

/// ASCII-lowercase a string.
pub fn lower_str(s: &str) -> (r: String)
    ensures
        r@ == lower_seq(s@),
{
    let v = str_chars(s);
    let l = lower_chars(&v);
    chars_to_string(&l)
}

/// ASCII-uppercase a string.
pub fn upper_str(s: &str) -> (r: String)
    ensures
        r@ == upper_seq(s@),
{
    let v = str_chars(s);
    let u = upper_chars(&v);
    chars_to_string(&u)
}

// ---------------------------------------------------------------------------
// Prefix and substring search
// ---------------------------------------------------------------------------

pub open spec fn has_prefix(s: Seq<char>, p: Seq<char>) -> bool {
    p.len() <= s.len() && s.subrange(0, p.len() as int) == p
}

pub open spec fn match_at(h: Seq<char>, n: Seq<char>, i: int) -> bool {
    0 <= i && i + n.len() <= h.len() && h.subrange(i, i + n.len()) == n
}

pub open spec fn contains_seq(h: Seq<char>, n: Seq<char>) -> bool {
    exists|i: int| match_at(h, n, i)
}

/// Does `v` start with `p`?
pub fn starts_with_chars(v: &Vec<char>, p: &Vec<char>) -> (r: bool)
    ensures
        r == has_prefix(v@, p@),
{
    if p.len() > v.len() {
        return false;
    }
    let mut i: usize = 0;
    while i < p.len()
        invariant
            p.len() <= v.len(),
            i <= p.len(),
            forall|k: int| 0 <= k < i ==> v@[k] == p@[k],
        decreases p.len() - i,
    {
        if v[i] != p[i] {
            proof {
                assert(!has_prefix(v@, p@)) by {
                    if has_prefix(v@, p@) {
                        assert(v@.subrange(0, p@.len() as int)[i as int] == p@[i as int]);
                    }
                }
            }
            return false;
        }
        i += 1;
    }
    proof {
        assert(v@.subrange(0, p@.len() as int) =~= p@);
    }
    true
}

/// Does the needle occur anywhere in the haystack?
pub fn contains_chars(h: &Vec<char>, n: &Vec<char>) -> (r: bool)
    ensures
        r == contains_seq(h@, n@),
{
    if n.len() > h.len() {
        proof {
            assert(forall|i: int| !match_at(h@, n@, i));
        }
        return false;
    }
    if n.len() == 0 {
        proof {
            assert(h@.subrange(0, 0) =~= n@);
            assert(match_at(h@, n@, 0));
        }
        return true;
    }
    let mut i: usize = 0;
    while i <= h.len() - n.len()
        invariant
            0 < n.len() <= h.len(),
            i <= h.len() - n.len() + 1,
            forall|k: int| 0 <= k < i ==> !match_at(h@, n@, k),
        decreases h.len() - n.len() + 1 - i,
    {
        let mut j: usize = 0;
        let mut mismatch = false;
        while j < n.len()
            invariant
                n.len() <= h.len(),
                i + n.len() <= h.len(),
                j <= n.len(),
                !mismatch ==> forall|k: int| 0 <= k < j ==> h@[i + k] == n@[k],
                mismatch ==> !match_at(h@, n@, i as int),
            decreases n.len() - j,
        {
            if h[i + j] != n[j] {
                proof {
                    assert(!match_at(h@, n@, i as int)) by {
                        if match_at(h@, n@, i as int) {
                            assert(h@.subrange(i as int, i + n@.len()) =~= n@);
                            assert(h@[i + j] == n@[j as int]);
                        }
                    }
                }
                mismatch = true;
                j = n.len();
            } else {
                j += 1;
            }
        }
        if !mismatch {
            proof {
                assert(h@.subrange(i as int, i + n@.len()) =~= n@);
                assert(match_at(h@, n@, i as int));
            }
            return true;
        }
        i += 1;
    }
    proof {
        assert(forall|k: int| !match_at(h@, n@, k)) by {
            assert(forall|k: int| k > h@.len() - n@.len() ==> !match_at(h@, n@, k));
        }
    }
    false
}

/// Does the needle occur anywhere in the haystack string?
pub fn str_contains(h: &str, n: &str) -> (r: bool)
    ensures
        r == contains_seq(h@, n@),
{
    let hv = str_chars(h);
    let nv = str_chars(n);
    contains_chars(&hv, &nv)
}

// ---------------------------------------------------------------------------
// Trimming
// ---------------------------------------------------------------------------

pub open spec fn is_space(c: char) -> bool {
    c == ' ' || c == '\t' || c == '\n' || c == '\r'
}

pub open spec fn first_non_space_from(s: Seq<char>, i: int) -> int
    decreases s.len() - i when 0 <= i <= s.len()
{
    if i >= s.len() {
        i
    } else if is_space(s[i]) {
        first_non_space_from(s, i + 1)
    } else {
        i
    }
}

pub open spec fn scan_back_non_space(s: Seq<char>, j: int) -> int
    decreases j when 0 <= j <= s.len()
{
    if j <= 0 {
        0
    } else if is_space(s[j - 1]) {
        scan_back_non_space(s, j - 1)
    } else {
        j
    }
}

/// The input with leading and trailing whitespace removed.
pub open spec fn trim_seq(s: Seq<char>) -> Seq<char> {
    let a = first_non_space_from(s, 0);
    let b = scan_back_non_space(s, s.len() as int);
    if a >= b {
        Seq::<char>::empty()
    } else {
        s.subrange(a, b)
    }
}

proof fn lemma_first_non_space_bounds(s: Seq<char>, i: int)
    requires
        0 <= i <= s.len(),
    ensures
        i <= first_non_space_from(s, i) <= s.len(),
    decreases s.len() - i,
{
    if i < s.len() && is_space(s[i]) {
        lemma_first_non_space_bounds(s, i + 1);
    }
}

proof fn lemma_scan_back_bounds(s: Seq<char>, j: int)
    requires
        0 <= j <= s.len(),
    ensures
        0 <= scan_back_non_space(s, j) <= j,
    decreases j,
{
    if j > 0 && is_space(s[j - 1]) {
        lemma_scan_back_bounds(s, j - 1);
    }
}

/// Copy `v[a..b]` out as a fresh vector.
pub fn subrange_chars(v: &Vec<char>, a: usize, b: usize) -> (r: Vec<char>)
    requires
        a <= b <= v@.len(),
    ensures
        r@ == v@.subrange(a as int, b as int),
{
    let mut out: Vec<char> = Vec::new();
    let mut k: usize = a;
    while k < b
        invariant
            a <= k <= b <= v@.len(),
            out@ == v@.subrange(a as int, k as int),
        decreases b - k,
    {
        out.push(v[k]);
        proof {
            assert(v@.subrange(a as int, k + 1 as int) =~= v@.subrange(a as int, k as int).push(
                v@[k as int],
            ));
        }
        k += 1;
    }
    out
}

/// Is the character one of the whitespace characters the trimmers strip?
pub fn is_space_char(c: char) -> (r: bool)
    ensures
        r == is_space(c),
{
    c == ' ' || c == '\t' || c == '\n' || c == '\r'
}

/// Remove leading and trailing whitespace.
pub fn trim_chars(v: &Vec<char>) -> (r: Vec<char>)
    ensures
        r@ == trim_seq(v@),
{
    let mut a: usize = 0;
    while a < v.len() && is_space_char(v[a])
        invariant
            a <= v.len(),
            first_non_space_from(v@, 0) == first_non_space_from(v@, a as int),
        decreases v.len() - a,
    {
        a += 1;
    }
    proof {
        assert(first_non_space_from(v@, a as int) == a as int);
        lemma_scan_back_bounds(v@, v@.len() as int);
    }
    let mut b: usize = v.len();
    while b > a && is_space_char(v[b - 1])
        invariant
            a <= b <= v.len(),
            scan_back_non_space(v@, v@.len() as int) == scan_back_non_space(v@, b as int),
        decreases b,
    {
        b -= 1;
    }
    if b <= a {
        proof {
            assert(scan_back_non_space(v@, b as int) <= b as int) by {
                lemma_scan_back_bounds(v@, b as int);
            }
        }
        Vec::new()
    } else {
        proof {
            assert(scan_back_non_space(v@, b as int) == b as int);
        }
        subrange_chars(v, a, b)
    }
}

/// Remove leading and trailing whitespace from a string.
pub fn trim_str(s: &str) -> (r: String)
    ensures
        r@ == trim_seq(s@),
{
    let v = str_chars(s);
    let t = trim_chars(&v);
    chars_to_string(&t)
}

// ---------------------------------------------------------------------------
// Decimal rendering and parsing
// ---------------------------------------------------------------------------

pub open spec fn digit_char(d: int) -> char {
    ((('0' as u8) + d as u8) as char)
}

/// Decimal text of a non-negative integer, without sign.
pub open spec fn dec_str(n: nat) -> Seq<char>
    decreases n,
{
    if n < 10 {
        seq![digit_char(n as int)]
    } else {
        dec_str(n / 10).push(digit_char((n % 10) as int))
    }
}

/// Decimal text of an integer, with a leading minus for negatives.
pub open spec fn dec_int(n: int) -> Seq<char> {
    if n < 0 {
        seq!['-'].add(dec_str((-n) as nat))
    } else {
        dec_str(n as nat)
    }
}

/// The decimal digits of `n`.
pub fn u64_chars(n: u64) -> (r: Vec<char>)
    ensures
        r@ == dec_str(n as nat),
    decreases n,
{
    if n < 10 {
        let mut v: Vec<char> = Vec::new();
        v.push(((48 + n as u8) as char));
        v
    } else {
        let mut v = u64_chars(n / 10);
        v.push((48 + (n % 10) as u8) as char);
        v
    }
}

/// The decimal text of an unsigned integer.
pub fn u64_string(n: u64) -> (r: String)
    ensures
        r@ == dec_str(n as nat),
{
    let v = u64_chars(n);
    chars_to_string(&v)
}

/// The decimal text of a signed integer.
pub fn i64_string(n: i64) -> (r: String)
    ensures
        r@ == dec_int(n as int),
{
    if n >= 0 {
        let v = u64_chars(n as u64);
        chars_to_string(&v)
    } else {
        let mag: u64 = ((-(n + 1)) as u64) + 1;
        proof {
            assert(mag as int == -(n as int));
        }
        let mut v: Vec<char> = Vec::new();
        v.push('-');
        let mut d = u64_chars(mag);
        let mut k: usize = 0;
        while k < d.len()
            invariant
                k <= d@.len(),
                d@ == dec_str(mag as nat),
                v@ == seq!['-'].add(d@.take(k as int)),
            decreases d.len() - k,
        {
            v.push(d[k]);
            proof {
                assert(seq!['-'].add(d@.take(k + 1 as int)) =~= seq!['-'].add(
                    d@.take(k as int),
                ).push(d@[k as int]));
            }
            k += 1;
        }
        proof {
            assert(d@.take(d@.len() as int) =~= d@);
        }
        chars_to_string(&v)
    }
}

pub open spec fn is_digit(c: char) -> bool {
    '0' <= c && c <= '9'
}

pub open spec fn digit_val(c: char) -> int {
    c as int - '0' as int
}

pub open spec fn all_digits(s: Seq<char>) -> bool {
    forall|i: int| 0 <= i < s.len() ==> is_digit(#[trigger] s[i])
}

/// Value of a digit string read left to right.
pub open spec fn digits_val(s: Seq<char>) -> int
    decreases s.len(),
{
    if s.len() == 0 {
        0
    } else {
        digits_val(s.drop_last()) * 10 + digit_val(s.last())
    }
}

proof fn lemma_digits_val_nonneg(s: Seq<char>)
    requires
        all_digits(s),
    ensures
        digits_val(s) >= 0,
    decreases s.len(),
{
    if s.len() > 0 {
        assert(all_digits(s.drop_last()));
        lemma_digits_val_nonneg(s.drop_last());
    }
}

proof fn lemma_digits_val_prefix_le(s: Seq<char>, i: int)
    requires
        all_digits(s),
        0 <= i <= s.len(),
    ensures
        digits_val(s.take(i)) <= digits_val(s),
    decreases s.len() - i,
{
    if i < s.len() {
        lemma_digits_val_prefix_le(s, i + 1);
        assert(s.take(i + 1).drop_last() =~= s.take(i));
        assert(all_digits(s.take(i)));
        lemma_digits_val_nonneg(s.take(i));
        assert(s.take(i + 1).last() == s[i]);
        assert(digits_val(s.take(i + 1)) == digits_val(s.take(i)) * 10 + digit_val(s[i]));
        assert(is_digit(s[i]));
        assert(digit_val(s[i]) >= 0);
        assert(digits_val(s.take(i)) <= digits_val(s.take(i)) * 10 + digit_val(s[i]));
    } else {
        assert(s.take(i) =~= s);
    }
}

/// What `str::parse::<i64>` accepts: an optional sign followed by one or
/// more decimal digits, the value fitting in the type.
pub open spec fn parse_i64_spec(s: Seq<char>) -> Option<i64> {
    let neg = s.len() > 0 && s[0] == '-';
    let ds = if s.len() > 0 && (s[0] == '-' || s[0] == '+') {
        s.drop_first()
    } else {
        s
    };
    if ds.len() == 0 || !all_digits(ds) {
        None
    } else {
        let v = if neg {
            -digits_val(ds)
        } else {
            digits_val(ds)
        };
        if i64::MIN <= v <= i64::MAX {
            Some(v as i64)
        } else {
            None
        }
    }
}

/// Parse a decimal integer as `str::parse::<i64>` would.
pub fn parse_i64_chars(v: &Vec<char>) -> (r: Option<i64>)
    ensures
        r == parse_i64_spec(v@),
{
    let ghost s = v@;
    let mut start: usize = 0;
    let mut neg = false;
    if v.len() > 0 && (v[0] == '-' || v[0] == '+') {
        neg = v[0] == '-';
        start = 1;
    }
    if start >= v.len() {
        return None;
    }
    let ghost ds = if s.len() > 0 && (s[0] == '-' || s[0] == '+') {
        s.drop_first()
    } else {
        s
    };
    proof {
        assert(ds =~= s.subrange(start as int, s.len() as int));
    }
    let limit: u64 = if neg {
        9223372036854775808
    } else {
        9223372036854775807
    };
    let mut acc: u64 = 0;
    let mut i: usize = start;
    while i < v.len()
        invariant
            start <= i <= v@.len(),
            s == v@,
            start == 0 || start == 1,
            start < s.len(),
            ds == s.subrange(start as int, s.len() as int),
            neg == (s.len() > 0 && s[0] == '-'),
            (start == 1) == (s.len() > 0 && (s[0] == '-' || s[0] == '+')),
            acc <= limit,
            acc as int == digits_val(ds.take(i - start)),
            all_digits(ds.take(i - start)),
            limit == if neg { 9223372036854775808u64 } else { 9223372036854775807u64 },
        decreases v.len() - i,
    {
        let c = v[i];
        if !('0' <= c && c <= '9') {
            proof {
                if s.len() > 0 {
                    assert(s.drop_first() =~= s.subrange(1, s.len() as int));
                }
                assert(s.subrange(0, s.len() as int) =~= s);
                assert(ds[i - start] == s[i as int]);
                assert(!all_digits(ds));
            }
            return None;
        }
        let d: u64 = ((c as u8) - 48) as u64;
        let wide: u128 = (acc as u128) * 10 + (d as u128);
        proof {
            assert(ds.take(i - start + 1).drop_last() =~= ds.take(i - start));
            assert(ds.take(i - start + 1).last() == s[i as int]);
            assert(d as int == digit_val(s[i as int]));
            assert(wide as int == digits_val(ds.take(i - start + 1)));
        }
        if wide > limit as u128 {
            proof {
                if s.len() > 0 {
                    assert(s.drop_first() =~= s.subrange(1, s.len() as int));
                }
                assert(s.subrange(0, s.len() as int) =~= s);
                lemma_digits_val_nonneg(ds.take(i - start + 1));
                if all_digits(ds) {
                    lemma_digits_val_prefix_le(ds, i - start + 1);
                    assert(digits_val(ds) >= wide as int);
                    assert(wide as int > limit as int);
                    if neg {
                        assert(-digits_val(ds) < i64::MIN as int);
                    } else {
                        assert(digits_val(ds) > i64::MAX as int);
                    }
                    assert(parse_i64_spec(s) is None);
                } else {
                    assert(parse_i64_spec(s) is None);
                }
            }
            return None;
        }
        acc = wide as u64;
        i += 1;
    }
    proof {
        assert(ds.take(s.len() - start) =~= ds);
        if s.len() > 0 {
            assert(s.drop_first() =~= s.subrange(1, s.len() as int));
        }
    }
    if neg {
        proof {
            assert(s[0] == '-');
        }
        if acc == 9223372036854775808 {
            Some(i64::MIN)
        } else {
            Some(-(acc as i64))
        }
    } else {
        Some(acc as i64)
    }
}

/// Parse a decimal integer from a string as `str::parse::<i64>` would.
pub fn parse_i64_str(s: &str) -> (r: Option<i64>)
    ensures
        r == parse_i64_spec(s@),
{
    let v = str_chars(s);
    parse_i64_chars(&v)
}

/// Append a literal word.
pub fn push_word(out: &mut Vec<char>, w: &str)
    ensures
        final(out)@ == old(out)@.add(w@),
{
    let v = str_chars(w);
    let mut i: usize = 0;
    while i < v.len()
        invariant
            v@ == w@,
            i <= v@.len(),
            out@ == old(out)@.add(v@.take(i as int)),
        decreases v.len() - i,
    {
        out.push(v[i]);
        proof {
            assert(v@.take(i + 1 as int) =~= v@.take(i as int).push(v@[i as int]));
            assert(old(out)@.add(v@.take(i as int)).push(v@[i as int]) =~= old(out)@.add(
                v@.take(i + 1 as int),
            ));
        }
        i += 1;
    }
    proof {
        assert(v@.take(v@.len() as int) =~= v@);
    }
}

/// Do the vector's characters spell exactly this string?
pub fn chars_eq_str(v: &Vec<char>, lit: &str) -> (r: bool)
    ensures
        r == (v@ == lit@),
{
    let l = str_chars(lit);
    if v.len() != l.len() {
        proof {
            assert(v@ != lit@);
        }
        return false;
    }
    let mut i: usize = 0;
    while i < v.len()
        invariant
            l@ == lit@,
            v@.len() == l@.len(),
            i <= v@.len(),
            forall|k: int| 0 <= k < i ==> v@[k] == l@[k],
        decreases v.len() - i,
    {
        if v[i] != l[i] {
            return false;
        }
        i += 1;
    }
    proof {
        assert(v@ =~= lit@);
    }
    true
}

// ---------------------------------------------------------------------------
// Character-by-character expansion
// ---------------------------------------------------------------------------

/// Replace every character by a sequence, concatenating the results.
pub open spec fn expand(s: Seq<char>, f: spec_fn(char) -> Seq<char>) -> Seq<char>
    decreases s.len(),
{
    if s.len() == 0 {
        Seq::<char>::empty()
    } else {
        f(s[0]).add(expand(s.drop_first(), f))
    }
}

pub proof fn lemma_expand_push(s: Seq<char>, f: spec_fn(char) -> Seq<char>, c: char)
    ensures
        expand(s.push(c), f) == expand(s, f).add(f(c)),
    decreases s.len(),
{
    if s.len() == 0 {
        assert(s.push(c).drop_first() =~= Seq::<char>::empty());
        assert(s.push(c)[0] == c);
        assert(expand(s.push(c), f) == f(c).add(expand(Seq::<char>::empty(), f)));
        assert(expand(s.push(c), f) =~= expand(s, f).add(f(c)));
    } else {
        let t = s.drop_first();
        assert(s.push(c).drop_first() =~= t.push(c));
        assert(s.push(c)[0] == s[0]);
        lemma_expand_push(t, f, c);
        assert(expand(s.push(c), f) == f(s[0]).add(expand(t.push(c), f)));
        assert(expand(t.push(c), f) == expand(t, f).add(f(c)));
        assert(expand(s, f) == f(s[0]).add(expand(t, f)));
        assert(f(s[0]).add(expand(t, f).add(f(c))) =~= f(s[0]).add(expand(t, f)).add(f(c)));
        assert(expand(s.push(c), f) =~= expand(s, f).add(f(c)));
    }
}

} // verus!

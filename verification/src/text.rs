//! Character-level string helpers: case folding, substring search, trimming,
//! and decimal conversion, each specified over `Seq<char>` views.
use vstd::prelude::*;

verus! {

/// Whitespace accepted when trimming user-entered field text.
pub open spec fn is_space(c: char) -> bool {
    c == ' ' || c == '\t' || c == '\n' || c == '\r'
}

fn is_space_char(c: char) -> (b: bool)
    ensures
        b == is_space(c),
{
    c == ' ' || c == '\t' || c == '\n' || c == '\r'
}

/// ASCII lower-casing of a single character; other characters are unchanged.
pub open spec fn lower_char(c: char) -> char {
    if 'A' <= c && c <= 'Z' {
        ((c as int) + 32) as char
    } else {
        c
    }
}

/// ASCII lower-casing of a whole string.
pub open spec fn lower(s: Seq<char>) -> Seq<char> {
    s.map_values(|c: char| lower_char(c))
}

pub fn lower_char_exec(c: char) -> (r: char)
    ensures
        r == lower_char(c),
{
    if 'A' <= c && c <= 'Z' {
        (((c as u32) as u8) + 32) as char
    } else {
        c
    }
}

/// `needle` occurs in `hay` starting at position `i`.
pub open spec fn matches_at(hay: Seq<char>, needle: Seq<char>, i: int) -> bool {
    0 <= i && i + needle.len() <= hay.len() && hay.subrange(i, i + needle.len() as int) == needle
}

/// `needle` occurs somewhere in `hay`.
pub open spec fn contains_seq(hay: Seq<char>, needle: Seq<char>) -> bool {
    exists|i: int| matches_at(hay, needle, i)
}

fn matches_at_exec(hay: &str, needle: &str, i: usize, hay_len: usize, needle_len: usize) -> (b: bool)
    requires
        hay_len == hay@.len(),
        needle_len == needle@.len(),
        i + needle_len <= hay_len,
    ensures
        b == matches_at(lower(hay@), lower(needle@), i as int),
{
    let mut j: usize = 0;
    while j < needle_len
        invariant
            0 <= j <= needle_len,
            hay_len == hay@.len(),
            needle_len == needle@.len(),
            i + needle_len <= hay_len,
            forall|k: int| 0 <= k < j ==> lower(hay@)[i + k] == lower(needle@)[k],
        decreases needle_len - j,
    {
        let hc = lower_char_exec(hay.get_char(i + j));
        let nc = lower_char_exec(needle.get_char(j));
        if hc != nc {
            proof {
                assert(lower(hay@).subrange(i as int, i + needle@.len() as int)[j as int]
                    != lower(needle@)[j as int]);
            }
            return false;
        }
        j = j + 1;
    }
    proof {
        assert(lower(hay@).subrange(i as int, i + needle@.len() as int) =~= lower(needle@));
    }
    true
}

/// Case-insensitive substring test: does `needle` occur in `hay` when both are
/// ASCII-lower-cased?
pub fn contains_ci(hay: &str, needle: &str) -> (r: bool)
    ensures
        r == contains_seq(lower(hay@), lower(needle@)),
{
    let hay_len = hay.unicode_len();
    let needle_len = needle.unicode_len();
    if needle_len > hay_len {
        proof {
            assert(forall|i: int| !matches_at(lower(hay@), lower(needle@), i));
        }
        return false;
    }
    if needle_len == 0 {
        proof {
            assert(lower(hay@).subrange(0, 0) =~= lower(needle@));
            assert(matches_at(lower(hay@), lower(needle@), 0));
        }
        return true;
    }
    let mut i: usize = 0;
    while i <= hay_len - needle_len
        invariant
            0 <= i <= hay_len - needle_len + 1,
            0 < needle_len <= hay_len,
            hay_len == hay@.len(),
            needle_len == needle@.len(),
            forall|k: int| 0 <= k < i ==> !matches_at(lower(hay@), lower(needle@), k),
        decreases hay_len - i,
    {
        if matches_at_exec(hay, needle, i, hay_len, needle_len) {
            return true;
        }
        i = i + 1;
    }
    proof {
        assert(forall|k: int| matches_at(lower(hay@), lower(needle@), k)
            ==> 0 <= k <= hay@.len() - needle@.len());
    }
    false
}

/// Equality of two string slices, decided character by character.
pub fn str_eq(a: &str, b: &str) -> (r: bool)
    ensures
        r == (a@ == b@),
{
    let a_len = a.unicode_len();
    let b_len = b.unicode_len();
    if a_len != b_len {
        return false;
    }
    let mut i: usize = 0;
    while i < a_len
        invariant
            0 <= i <= a_len,
            a_len == a@.len(),
            a_len == b@.len(),
            forall|k: int| 0 <= k < i ==> a@[k] == b@[k],
        decreases a_len - i,
    {
        if a.get_char(i) != b.get_char(i) {
            return false;
        }
        i = i + 1;
    }
    proof {
        assert(a@ =~= b@);
    }
    true
}

/// The string with leading whitespace removed.
pub open spec fn trim_start_spec(s: Seq<char>) -> Seq<char>
    decreases s.len(),
{
    if s.len() > 0 && is_space(s[0]) {
        trim_start_spec(s.subrange(1, s.len() as int))
    } else {
        s
    }
}

/// The string with trailing whitespace removed.
pub open spec fn trim_end_spec(s: Seq<char>) -> Seq<char>
    decreases s.len(),
{
    if s.len() > 0 && is_space(s[s.len() - 1]) {
        trim_end_spec(s.subrange(0, s.len() - 1))
    } else {
        s
    }
}

/// The string with whitespace removed from both ends.
pub open spec fn trim_spec(s: Seq<char>) -> Seq<char> {
    trim_end_spec(trim_start_spec(s))
}

proof fn lemma_trim_start_at(s: Seq<char>, i: int)
    requires
        0 <= i <= s.len(),
        forall|j: int| 0 <= j < i ==> is_space(s[j]),
        i == s.len() || !is_space(s[i]),
    ensures
        trim_start_spec(s) == s.subrange(i, s.len() as int),
    decreases i,
{
    if i == 0 {
        assert(s.subrange(0, s.len() as int) =~= s);
    } else {
        let t = s.subrange(1, s.len() as int);
        lemma_trim_start_at(t, i - 1);
        assert(t.subrange(i - 1, t.len() as int) =~= s.subrange(i, s.len() as int));
    }
}

proof fn lemma_trim_end_at(s: Seq<char>, k: int)
    requires
        0 <= k <= s.len(),
        forall|j: int| k <= j < s.len() ==> is_space(s[j]),
        k == 0 || !is_space(s[k - 1]),
    ensures
        trim_end_spec(s) == s.subrange(0, k),
    decreases s.len() - k,
{
    if k == s.len() {
        if s.len() > 0 && is_space(s[s.len() - 1]) {
            assert(!is_space(s[k - 1]));
            assert(false);
        }
        assert(s.subrange(0, s.len() as int) =~= s);
    } else {
        let t = s.subrange(0, s.len() - 1);
        lemma_trim_end_at(t, k);
        assert(t.subrange(0, k) =~= s.subrange(0, k));
    }
}

/// Whether a string consists of whitespace only, which is exactly when its
/// trimmed form is empty.
pub fn is_blank(s: &str) -> (b: bool)
    ensures
        b == (trim_spec(s@).len() == 0),
{
    let n = s.unicode_len();
    let mut i: usize = 0;
    while i < n
        invariant
            0 <= i <= n,
            n == s@.len(),
            forall|j: int| 0 <= j < i ==> is_space(s@[j]),
        decreases n - i,
    {
        if !is_space_char(s.get_char(i)) {
            proof {
                lemma_trim_start_at(s@, i as int);
                let t = s@.subrange(i as int, s@.len() as int);
                lemma_trim_end_nonempty(t);
            }
            return false;
        }
        i = i + 1;
    }
    proof {
        lemma_trim_start_at(s@, s@.len() as int);
        assert(trim_start_spec(s@) =~= Seq::<char>::empty());
    }
    true
}

proof fn lemma_trim_end_nonempty(t: Seq<char>)
    requires
        t.len() > 0,
        !is_space(t[0]),
    ensures
        trim_end_spec(t).len() > 0,
    decreases t.len(),
{
    if is_space(t[t.len() - 1]) {
        let u = t.subrange(0, t.len() - 1);
        lemma_trim_end_nonempty(u);
    }
}

/// A freshly owned copy of the string with whitespace removed from both ends.
pub fn trimmed(s: &str) -> (r: String)
    ensures
        r@ == trim_spec(s@),
{
    let n = s.unicode_len();
    let mut a: usize = 0;
    while a < n && is_space_char(s.get_char(a))
        invariant
            0 <= a <= n,
            n == s@.len(),
            forall|j: int| 0 <= j < a ==> is_space(s@[j]),
        decreases n - a,
    {
        a = a + 1;
    }
    if a == n {
        proof {
            lemma_trim_start_at(s@, n as int);
            assert(trim_start_spec(s@) =~= Seq::<char>::empty());
        }
        return String::new();
    }
    let mut b: usize = n;
    while b > a + 1 && is_space_char(s.get_char(b - 1))
        invariant
            a < b <= n,
            n == s@.len(),
            forall|j: int| b <= j < n ==> is_space(s@[j]),
        decreases b,
    {
        b = b - 1;
    }
    if is_space_char(s.get_char(b - 1)) {
        // only possible when b == a + 1, contradicting that s[a] is not a space
        proof {
            assert(false);
        }
    }
    let t = s.substring_char(a, b);
    proof {
        lemma_trim_start_at(s@, a as int);
        let u = s@.subrange(a as int, s@.len() as int);
        lemma_trim_end_at(u, b - a as int);
        assert(u.subrange(0, b - a as int) =~= s@.subrange(a as int, b as int));
    }
    t.to_owned()
}

/// A decimal digit.
pub open spec fn is_digit(c: char) -> bool {
    '0' <= c && c <= '9'
}

/// Numeric value of a decimal digit.
pub open spec fn digit_val(c: char) -> int {
    (c as int) - ('0' as int)
}

/// All characters are decimal digits.
pub open spec fn all_digits(s: Seq<char>) -> bool {
    forall|i: int| 0 <= i < s.len() ==> is_digit(#[trigger] s[i])
}

/// The number denoted by a string of decimal digits, most significant first.
pub open spec fn digits_val(s: Seq<char>) -> int
    decreases s.len(),
{
    if s.len() == 0 {
        0
    } else {
        digits_val(s.subrange(0, s.len() - 1)) * 10 + digit_val(s[s.len() - 1])
    }
}

/// What `u32` parsing accepts: an optional leading `+`, then one or more
/// decimal digits denoting a value that fits in 32 bits.
pub open spec fn parse_u32_spec(s: Seq<char>) -> Option<u32> {
    let t = if s.len() > 0 && s[0] == '+' {
        s.subrange(1, s.len() as int)
    } else {
        s
    };
    if t.len() > 0 && all_digits(t) && digits_val(t) <= u32::MAX {
        Some(digits_val(t) as u32)
    } else {
        None
    }
}

proof fn lemma_digits_val_bounds(s: Seq<char>)
    requires
        all_digits(s),
    ensures
        digits_val(s) >= 0,
    decreases s.len(),
{
    if s.len() > 0 {
        let p = s.subrange(0, s.len() - 1);
        assert(forall|i: int| 0 <= i < p.len() ==> is_digit(#[trigger] p[i]));
        lemma_digits_val_bounds(p);
    }
}

fn parse_digits(t: &str, start: usize) -> (r: Option<u32>)
    requires
        start < t@.len(),
    ensures
        ({
            let d = t@.subrange(start as int, t@.len() as int);
            match r {
                Some(v) => all_digits(d) && digits_val(d) <= u32::MAX && v == digits_val(d),
                None => !(all_digits(d) && digits_val(d) <= u32::MAX),
            }
        }),
{
    let n = t.unicode_len();
    let ghost d = t@.subrange(start as int, t@.len() as int);
    let mut acc: u64 = 0;
    let mut i: usize = start;
    while i < n
        invariant
            start <= i <= n,
            n == t@.len(),
            start < n,
            d == t@.subrange(start as int, t@.len() as int),
            all_digits(t@.subrange(start as int, i as int)),
            acc == digits_val(t@.subrange(start as int, i as int)),
            acc <= u32::MAX,
        decreases n - i,
    {
        let c = t.get_char(i);
        if !('0' <= c && c <= '9') {
            proof {
                assert(d[i - start] == t@[i as int]);
                assert(!is_digit(d[i - start]));
            }
            return None;
        }
        let dv: u64 = ((c as u32) - ('0' as u32)) as u64;
        let next: u64 = acc * 10 + dv;
        proof {
            let p = t@.subrange(start as int, (i + 1) as int);
            assert(p.subrange(0, p.len() - 1) =~= t@.subrange(start as int, i as int));
            assert(forall|k: int| 0 <= k < p.len() ==> is_digit(#[trigger] p[k]));
        }
        if next > u32::MAX as u64 {
            proof {
                let p = t@.subrange(start as int, (i + 1) as int);
                assert(p =~= d.subrange(0, p.len() as int));
                if all_digits(d) {
                    lemma_digits_prefix_monotone(d, p.len() as int);
                }
            }
            return None;
        }
        acc = next;
        i = i + 1;
    }
    proof {
        assert(t@.subrange(start as int, i as int) =~= d);
    }
    Some(acc as u32)
}

proof fn lemma_digits_prefix_monotone(s: Seq<char>, k: int)
    requires
        0 <= k <= s.len(),
        all_digits(s),
    ensures
        digits_val(s) >= digits_val(s.subrange(0, k)),
    decreases s.len() - k,
{
    lemma_digits_val_bounds(s);
    if k == s.len() {
        assert(s.subrange(0, s.len() as int) =~= s);
    }
    if k < s.len() {
        lemma_digits_prefix_monotone(s, k + 1);
        let p = s.subrange(0, k + 1);
        assert(p.subrange(0, p.len() - 1) =~= s.subrange(0, k));
        let q = s.subrange(0, k);
        assert(forall|i: int| 0 <= i < q.len() ==> is_digit(#[trigger] q[i]));
        lemma_digits_val_bounds(q);
        assert(digits_val(p) == digits_val(q) * 10 + digit_val(p[k]));
        assert(digits_val(q) * 10 >= digits_val(q));
    }
}

/// Parse an unsigned 32-bit decimal number, as a `u32` parse would accept it.
pub fn parse_u32(s: &str) -> (r: Option<u32>)
    ensures
        r == parse_u32_spec(s@),
{
    let n = s.unicode_len();
    if n == 0 {
        return None;
    }
    let has_sign = s.get_char(0) == '+';
    let start: usize = if has_sign {
        1
    } else {
        0
    };
    if start >= n {
        proof {
            assert(s@.subrange(1, s@.len() as int).len() == 0);
        }
        return None;
    }
    let r = parse_digits(s, start);
    proof {
        if !has_sign {
            assert(s@.subrange(0, s@.len() as int) =~= s@);
        }
    }
    r
}

/// Decimal digit character for a value in `0..=9`.
pub open spec fn dec_digit_char(d: int) -> char {
    (('0' as int) + d) as char
}

/// Decimal representation of a non-negative number, most significant digit first.
pub open spec fn dec_rep(n: int) -> Seq<char>
    decreases n,
{
    if n < 10 {
        seq![dec_digit_char(n)]
    } else {
        dec_rep(n / 10).push(dec_digit_char(n % 10))
    }
}

/// Relies on `String::push`: appends one character at the end of the string.
#[verifier::external_body]
pub fn push_char(s: &mut String, c: char)
    ensures
        final(s)@ == old(s)@.push(c),
{
    s.push(c);
}

/// The string without its last character; the empty string stays empty.
pub open spec fn drop_last_char(s: Seq<char>) -> Seq<char> {
    if s.len() == 0 {
        s
    } else {
        s.subrange(0, s.len() - 1)
    }
}

/// Relies on `String::pop`: removes and returns the last character, if any.
#[verifier::external_body]
pub fn pop_char(s: &mut String) -> (r: Option<char>)
    ensures
        old(s)@.len() == 0 ==> final(s)@ == old(s)@ && r is None,
        old(s)@.len() > 0 ==> final(s)@ == old(s)@.subrange(0, old(s)@.len() - 1) && r == Some(
            old(s)@[old(s)@.len() - 1],
        ),
{
    s.pop()
}

fn dec_digit_exec(d: u64) -> (c: char)
    requires
        d < 10,
    ensures
        c == dec_digit_char(d as int),
{
    (('0' as u8) + (d as u8)) as char
}

/// Format a non-negative number in decimal.
pub fn u64_to_string(n: u64) -> (r: String)
    ensures
        r@ == dec_rep(n as int),
    decreases n,
{
    if n < 10 {
        let mut s = String::new();
        push_char(&mut s, dec_digit_exec(n));
        proof {
            assert(Seq::<char>::empty().push(dec_digit_char(n as int)) =~= seq![
                dec_digit_char(n as int),
            ]);
        }
        s
    } else {
        let mut s = u64_to_string(n / 10);
        push_char(&mut s, dec_digit_exec(n % 10));
        s
    }
}

/// Format a `u32` in decimal.
pub fn u32_to_string(n: u32) -> (r: String)
    ensures
        r@ == dec_rep(n as int),
{
    u64_to_string(n as u64)
}

/// Format a `usize` in decimal.
pub fn usize_to_string(n: usize) -> (r: String)
    ensures
        r@ == dec_rep(n as int),
{
    u64_to_string(n as u64)
}

} // verus!

//! Parsers for the textual forms of configuration values.
use vstd::prelude::*;

use crate::config::SnapshotPolicy;
use crate::error::ParseError;

verus! {

/// Whether `c` is an ASCII decimal digit.
pub open spec fn is_digit(c: char) -> bool {
    '0' <= c && c <= '9'
}

/// The value of the decimal digits `s`, most significant first.
pub open spec fn digits_value(s: Seq<char>) -> int
    decreases s.len(),
{
    if s.len() == 0 {
        0
    } else {
        digits_value(s.drop_last()) * 10 + (s.last() as int - '0' as int)
    }
}

/// The digits of an unsigned integer literal: `s` without a leading `+`.
pub open spec fn unsigned_digits(s: Seq<char>) -> Seq<char> {
    if s.len() > 0 && s[0] == '+' {
        s.drop_first()
    } else {
        s
    }
}

/// The unsigned 64-bit integer that `s` writes in decimal, if any: an
/// optional `+` followed by at least one digit, of a value that fits.
pub open spec fn decimal_of(s: Seq<char>) -> Option<u64> {
    let d = unsigned_digits(s);
    if d.len() > 0 && (forall|i: int| 0 <= i < d.len() ==> is_digit(#[trigger] d[i]))
        && digits_value(d) <= u64::MAX {
        Some(digits_value(d) as u64)
    } else {
        None
    }
}

/// The index of the first `c` in `s` at or after `i`, or `s.len()` if none.
pub open spec fn find_char(s: Seq<char>, c: char, i: int) -> int
    decreases s.len() - i,
{
    if i >= s.len() {
        s.len() as int
    } else if s[i] == c {
        i
    } else {
        find_char(s, c, i + 1)
    }
}

/// The keyword of the snapshot policy form `since_last:<num>`.
pub open spec fn since_last_keyword() -> Seq<char> {
    seq!['s', 'i', 'n', 'c', 'e', '_', 'l', 'a', 's', 't']
}

/// What `s` says as a snapshot policy: it splits at `:` into exactly two
/// parts, the first of which is `since_last` and the second a count. Any
/// other text, a count that is not a number included, is malformed.
pub open spec fn snapshot_policy_of(s: Seq<char>) -> Result<SnapshotPolicy, ParseError> {
    let k = find_char(s, ':', 0);
    if k == s.len() || find_char(s, ':', k + 1) != s.len() || s.take(k)
        != since_last_keyword() {
        Err(ParseError::MalformedSnapshotPolicy)
    } else {
        match decimal_of(s.skip(k + 1)) {
            Some(n) => Ok(SnapshotPolicy::LogsSinceLast(n)),
            None => Err(ParseError::MalformedSnapshotPolicy),
        }
    }
}

/// The number of bytes that `byte_unit` reads from `s`, if it reads `s`.
pub uninterp spec fn byte_size_of(s: Seq<char>) -> Option<u128>;

/// What a byte size read as `n` gives as a 64-bit count.
pub open spec fn byte_count_of(n: Option<u128>) -> Result<u64, ParseError> {
    match n {
        None => Err(ParseError::MalformedByteSize),
        Some(b) => if b <= u64::MAX as u128 {
            Ok(b as u64)
        } else {
            Err(ParseError::ByteSizeTooLarge)
        },
    }
}

/// Relies on `byte_unit::Byte::from_str` and `Byte::get_bytes`: a number,
/// integer or decimal, with an optional byte unit, read as a count of bytes.
/// The result depends on the characters of `s` alone.
#[verifier::external_body]
fn read_byte_size(s: &str) -> (r: Option<u128>)
    ensures
        r == byte_size_of(s@),
{
    byte_unit::Byte::from_str(s).ok().map(|b| b.get_bytes())
}

/// Turn a byte size read by the byte-size reader into a 64-bit count.
pub fn byte_count(n: Option<u128>) -> (r: Result<u64, ParseError>)
    ensures
        r == byte_count_of(n),
{
    match n {
        None => Err(ParseError::MalformedByteSize),
        Some(b) => if b <= u64::MAX as u128 {
            Ok(b as u64)
        } else {
            Err(ParseError::ByteSizeTooLarge)
        },
    }
}

/// Parse a byte size such as `3MiB`, `5.3 KB` or `204` into a count of bytes.
///
/// Units are read case-insensitively; decimal units (`KB`, `MB`, or a bare
/// `K`, `M`) are powers of 1000 and binary units (`KiB`, `MiB`) powers of
/// 1024. A size that does not fit in 64 bits is an error.
///
/// The number is summed up in double-precision floating point before it is
/// scaled, so a decimal fraction, or a count above 2^53, can come back
/// rounded.
pub fn parse_bytes_with_unit(src: &str) -> (r: Result<u64, ParseError>)
    ensures
        r == byte_count_of(byte_size_of(src@)),
{
    byte_count(read_byte_size(src))
}

proof fn lemma_digits_value_nonneg(s: Seq<char>)
    requires
        forall|i: int| 0 <= i < s.len() ==> is_digit(#[trigger] s[i]),
    ensures
        digits_value(s) >= 0,
    decreases s.len(),
{
    if s.len() > 0 {
        lemma_digits_value_nonneg(s.drop_last());
    }
}

/// A longer run of digits is worth at least as much as its prefix.
proof fn lemma_digits_value_prefix(s: Seq<char>, i: int)
    requires
        0 <= i <= s.len(),
        forall|j: int| 0 <= j < s.len() ==> is_digit(#[trigger] s[j]),
    ensures
        digits_value(s.take(i)) <= digits_value(s),
    decreases s.len() - i,
{
    if i < s.len() {
        lemma_digits_value_prefix(s, i + 1);
        let t = s.take(i + 1);
        assert(t.drop_last() =~= s.take(i));
        lemma_digits_value_nonneg(s.take(i));
    } else {
        assert(s.take(i) =~= s);
    }
}

/// Read an unsigned 64-bit integer in decimal, as `u64`'s `FromStr` does.
pub fn parse_u64(s: &str) -> (r: Option<u64>)
    ensures
        r == decimal_of(s@),
{
    let n = s.unicode_len();
    let mut i: usize = 0;
    if n > 0 && s.get_char(0) == '+' {
        i = 1;
    }
    let start = i;
    let ghost d = unsigned_digits(s@);
    assert(d =~= s@.skip(start as int));
    if i == n {
        return None;
    }
    let mut acc: u64 = 0;
    while i < n
        invariant
            start <= i <= n,
            n == s@.len(),
            start < n,
            d == s@.skip(start as int),
            d == unsigned_digits(s@),
            forall|j: int| 0 <= j < i - start ==> is_digit(#[trigger] d[j]),
            acc == digits_value(d.take(i - start)),
        decreases n - i,
    {
        let c = s.get_char(i);
        assert(c == d[i - start]);
        if c < '0' || c > '9' {
            assert(!is_digit(d[i - start]));
            return None;
        }
        let v = (c as u64) - ('0' as u64);
        assert(d.take(i - start + 1).drop_last() =~= d.take(i - start));
        if acc > (u64::MAX - v) / 10 {
            proof {
                assert(digits_value(d.take(i - start + 1)) > u64::MAX) by (nonlinear_arith)
                    requires
                        acc > (u64::MAX - v) / 10,
                        digits_value(d.take(i - start + 1)) == acc * 10 + v,
                ;
                if forall|j: int| 0 <= j < d.len() ==> is_digit(#[trigger] d[j]) {
                    lemma_digits_value_prefix(d, i - start + 1);
                    assert(digits_value(d) > u64::MAX);
                }
                assert(decimal_of(s@) is None);
            }
            return None;
        }
        acc = acc * 10 + v;
        i = i + 1;
    }
    assert(d.take(i - start) =~= d);
    Some(acc)
}

/// Read a snapshot policy of the form `since_last:<num>`.
pub fn parse_snapshot_policy(src: &str) -> (r: Result<SnapshotPolicy, ParseError>)
    ensures
        r == snapshot_policy_of(src@),
{
    let n = src.unicode_len();
    let mut k: usize = 0;
    while k < n && src.get_char(k) != ':'
        invariant
            k <= n,
            n == src@.len(),
            find_char(src@, ':', 0) == find_char(src@, ':', k as int),
        decreases n - k,
    {
        k = k + 1;
    }
    if k == n {
        return Err(ParseError::MalformedSnapshotPolicy);
    }
    let mut m: usize = k + 1;
    while m < n && src.get_char(m) != ':'
        invariant
            k < m <= n,
            n == src@.len(),
            find_char(src@, ':', k + 1) == find_char(src@, ':', m as int),
        decreases n - m,
    {
        m = m + 1;
    }
    if m != n {
        return Err(ParseError::MalformedSnapshotPolicy);
    }
    let head = src.substring_char(0, k);
    let keyword = "since_last";
    proof {
        reveal_strlit("since_last");
        assert(keyword@ =~= since_last_keyword());
        assert(head@ =~= src@.take(k as int));
    }
    if !str_equal(head, keyword) {
        return Err(ParseError::MalformedSnapshotPolicy);
    }
    let tail = src.substring_char(k + 1, n);
    assert(tail@ =~= src@.skip(k + 1));
    match parse_u64(tail) {
        Some(count) => Ok(SnapshotPolicy::LogsSinceLast(count)),
        None => Err(ParseError::MalformedSnapshotPolicy),
    }
}

/// Whether two strings hold the same characters.
pub fn str_equal(a: &str, b: &str) -> (r: bool)
    ensures
        r == (a@ == b@),
{
    let n = a.unicode_len();
    if n != b.unicode_len() {
        return false;
    }
    let mut i: usize = 0;
    while i < n
        invariant
            i <= n,
            n == a@.len(),
            n == b@.len(),
            forall|j: int| 0 <= j < i ==> a@[j] == b@[j],
        decreases n - i,
    {
        if a.get_char(i) != b.get_char(i) {
            return false;
        }
        i = i + 1;
    }
    assert(a@ =~= b@);
    true
}

} // verus!

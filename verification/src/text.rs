//! Text forms used by the service: decimal integers and UUIDs.
//!
//! UUIDs are held as `u128` values (the big-endian reading of their sixteen
//! bytes, as `Uuid::as_u128` gives them); their text forms are stated here.

use vstd::prelude::*;

verus! {

// ---------------------------------------------------------------------------
// Decimal integers
// ---------------------------------------------------------------------------

/// Whether `c` is an ASCII decimal digit.
pub open spec fn is_dec_digit(c: char) -> bool {
    '0' <= c && c <= '9'
}

/// The value of the decimal digit `c`.
pub open spec fn dec_digit_value(c: char) -> int {
    c as int - '0' as int
}

/// The value of a sequence of decimal digits, most significant first.
pub open spec fn dec_value(s: Seq<char>) -> int
    decreases s.len(),
{
    if s.len() == 0 {
        0
    } else {
        dec_value(s.drop_last()) * 10 + dec_digit_value(s.last())
    }
}

pub open spec fn all_dec_digits(s: Seq<char>) -> bool {
    forall|i: int| 0 <= i < s.len() ==> #[trigger] is_dec_digit(s[i])
}

/// What std's `parse` of an unsigned integer type whose largest value is
/// `max` returns for `s`: an optional leading `+`, then one or more decimal
/// digits whose value is at most `max`.
pub open spec fn spec_parse_unsigned(s: Seq<char>, max: int) -> Option<int> {
    let digits = if s.len() > 0 && s[0] == '+' {
        s.skip(1)
    } else {
        s
    };
    if digits.len() > 0 && all_dec_digits(digits) && dec_value(digits) <= max {
        Some(dec_value(digits))
    } else {
        None
    }
}

/// The decimal digit for `d`, where `0 <= d < 10`.
pub open spec fn dec_digit_char(d: int) -> char {
    (('0' as int) + d) as char
}

/// The decimal text of `n` as `to_string` writes it: no sign and no
/// leading zero, `"0"` for zero.
pub open spec fn dec_text(n: nat) -> Seq<char>
    decreases n,
{
    if n < 10 {
        seq![dec_digit_char(n as int)]
    } else {
        dec_text(n / 10).push(dec_digit_char((n % 10) as int))
    }
}

pub proof fn lemma_dec_value_nonneg(s: Seq<char>)
    requires
        all_dec_digits(s),
    ensures
        dec_value(s) >= 0,
    decreases s.len(),
{
    if s.len() > 0 {
        assert(is_dec_digit(s[s.len() - 1]));
        assert(all_dec_digits(s.drop_last())) by {
            assert forall|i: int| 0 <= i < s.drop_last().len() implies #[trigger] is_dec_digit(
                s.drop_last()[i],
            ) by {
                assert(is_dec_digit(s[i]));
            }
        }
        lemma_dec_value_nonneg(s.drop_last());
    }
}

/// A longer run of digits never has a smaller value than its prefix.
pub proof fn lemma_dec_value_prefix(s: Seq<char>, k: int)
    requires
        all_dec_digits(s),
        0 <= k <= s.len(),
    ensures
        0 <= dec_value(s.take(k)) <= dec_value(s),
    decreases s.len(),
{
    if k == s.len() {
        assert(s.take(k) =~= s);
        lemma_dec_value_nonneg(s);
    } else {
        let t = s.drop_last();
        assert(all_dec_digits(t)) by {
            assert forall|i: int| 0 <= i < t.len() implies #[trigger] is_dec_digit(t[i]) by {
                assert(is_dec_digit(s[i]));
            }
        }
        assert(is_dec_digit(s[s.len() - 1]));
        lemma_dec_value_prefix(t, k);
        assert(t.take(k) =~= s.take(k));
        lemma_dec_value_nonneg(t);
    }
}

/// The text that `dec_text` writes is made of digits and reads back as `n`.
pub proof fn lemma_dec_text(n: nat)
    ensures
        dec_text(n).len() > 0,
        all_dec_digits(dec_text(n)),
        dec_value(dec_text(n)) == n,
    decreases n,
{
    if n < 10 {
        let s = seq![dec_digit_char(n as int)];
        assert(dec_digit_value(dec_digit_char(n as int)) == n);
        assert(s.drop_last() =~= Seq::<char>::empty());
        assert(dec_value(Seq::<char>::empty()) == 0);
        assert(dec_value(s) == dec_value(s.drop_last()) * 10 + dec_digit_value(s.last()));
        assert(is_dec_digit(s[0]));
    } else {
        lemma_dec_text(n / 10);
        let t = dec_text(n / 10);
        let s = t.push(dec_digit_char((n % 10) as int));
        assert(s.drop_last() =~= t);
        assert(dec_digit_value(dec_digit_char((n % 10) as int)) == n % 10);
        assert(dec_value(s) == dec_value(t) * 10 + (n % 10));
        assert(dec_text(n) == s);
        assert forall|i: int| 0 <= i < s.len() implies #[trigger] is_dec_digit(s[i]) by {
            if i < t.len() {
                assert(is_dec_digit(t[i]));
            }
        }
    }
}

/// Reading back the decimal text of `n` with the parser's rules gives `n`.
pub proof fn lemma_parse_dec_text(n: nat, max: int)
    requires
        n <= max,
    ensures
        spec_parse_unsigned(dec_text(n), max) == Some(n as int),
{
    lemma_dec_text(n);
    assert(is_dec_digit(dec_text(n)[0]));
}

/// A parsed value lies between zero and the largest accepted value.
pub proof fn lemma_parse_unsigned_bounds(s: Seq<char>, max: int)
    ensures
        spec_parse_unsigned(s, max) matches Some(x) ==> 0 <= x <= max,
{
    let digits = if s.len() > 0 && s[0] == '+' {
        s.skip(1)
    } else {
        s
    };
    if digits.len() > 0 && all_dec_digits(digits) {
        lemma_dec_value_nonneg(digits);
    }
}

/// Parses the characters `v[lo..hi]` as an unsigned decimal integer no
/// larger than `max`, by std's rules for integer `parse`.
pub fn parse_unsigned_range(v: &Vec<char>, lo: usize, hi: usize, max: u64) -> (r: Option<u64>)
    requires
        lo <= hi <= v.len(),
    ensures
        match spec_parse_unsigned(v@.subrange(lo as int, hi as int), max as int) {
            Some(x) => r == Some(x as u64),
            None => r is None,
        },
        r matches Some(x) ==> x <= max,
        spec_parse_unsigned(v@.subrange(lo as int, hi as int), max as int) matches Some(x) ==> 0
            <= x <= max,
{
    let ghost s = v@.subrange(lo as int, hi as int);
    proof {
        lemma_parse_unsigned_bounds(s, max as int);
    }
    let start: usize = if lo < hi && v[lo] == '+' {
        lo + 1
    } else {
        lo
    };
    let ghost digits = v@.subrange(start as int, hi as int);
    assert(digits =~= (if s.len() > 0 && s[0] == '+' {
        s.skip(1)
    } else {
        s
    }));
    if start == hi {
        return None;
    }
    let mut value: u64 = 0;
    let mut i: usize = start;
    while i < hi
        invariant
            lo <= start <= i <= hi <= v.len(),
            digits == v@.subrange(start as int, hi as int),
            s == v@.subrange(lo as int, hi as int),
            digits == (if s.len() > 0 && s[0] == '+' {
                s.skip(1)
            } else {
                s
            }),
            all_dec_digits(digits.take(i - start)),
            value as int == dec_value(digits.take(i - start)),
            value <= max,
        decreases hi - i,
    {
        let c = v[i];
        if !('0' <= c && c <= '9') {
            assert(!is_dec_digit(digits[i - start]));
            return None;
        }
        let d = (c as u32 - '0' as u32) as u64;
        let ghost next = digits.take(i - start + 1);
        assert(next.drop_last() =~= digits.take(i - start));
        assert(next.last() == c);
        assert(all_dec_digits(next)) by {
            assert forall|j: int| 0 <= j < next.len() implies #[trigger] is_dec_digit(next[j]) by {
                if j < i - start {
                    assert(is_dec_digit(digits.take(i - start)[j]));
                }
            }
        }
        if (value as u128) * 10 + (d as u128) > max as u128 {
            proof {
                if all_dec_digits(digits) {
                    lemma_dec_value_prefix(digits, (i - start + 1) as int);
                }
            }
            return None;
        }
        value = value * 10 + d;
        i = i + 1;
    }
    assert(digits.take(i - start) =~= digits);
    Some(value)
}

/// The characters of `s`, in order.
pub fn chars_of(s: &str) -> (v: Vec<char>)
    ensures
        v@ == s@,
{
    let mut v: Vec<char> = Vec::new();
    for c in it: s.chars()
        invariant
            v@ == it.seq().take(it.index()),
    {
        v.push(c);
    }
    v
}

/// Parses `s` as an unsigned decimal integer no larger than `max`, by
/// std's rules for integer `parse`.
pub fn parse_unsigned(s: &str, max: u64) -> (r: Option<u64>)
    ensures
        match spec_parse_unsigned(s@, max as int) {
            Some(x) => r == Some(x as u64),
            None => r is None,
        },
        r matches Some(x) ==> x <= max,
{
    let v = chars_of(s);
    assert(v@.subrange(0, v@.len() as int) =~= s@);
    parse_unsigned_range(&v, 0, v.len(), max)
}

/// Appends `c` to `s` (std's `String::push`).
#[verifier::external_body]
pub(crate) fn string_push(s: &mut String, c: char)
    ensures
        final(s)@ == old(s)@.push(c),
{
    s.push(c);
}

/// The text of the characters `v[lo..hi]`.
pub fn string_of_range(v: &Vec<char>, lo: usize, hi: usize) -> (r: String)
    requires
        lo <= hi <= v.len(),
    ensures
        r@ == v@.subrange(lo as int, hi as int),
{
    let mut r = String::new();
    let mut k: usize = lo;
    while k < hi
        invariant
            lo <= k <= hi <= v.len(),
            r@ == v@.subrange(lo as int, k as int),
        decreases hi - k,
    {
        string_push(&mut r, v[k]);
        assert(v@.subrange(lo as int, k + 1) =~= v@.subrange(lo as int, k as int).push(v@[k as int]));
        k = k + 1;
    }
    r
}

/// Writes the decimal text of `n` at the end of `out`.
pub fn push_dec_text(out: &mut String, n: u64)
    ensures
        final(out)@ == old(out)@ + dec_text(n as nat),
    decreases n,
{
    if n >= 10 {
        push_dec_text(out, n / 10);
    }
    let d = n % 10;
    let c = if d == 0 { '0' } else if d == 1 { '1' } else if d == 2 { '2' } else if d == 3 { '3' }
        else if d == 4 { '4' } else if d == 5 { '5' } else if d == 6 { '6' } else if d == 7 { '7' }
        else if d == 8 { '8' } else { '9' };
    assert(c == dec_digit_char(d as int));
    string_push(out, c);
    assert(dec_text(n as nat) =~= (if n < 10 {
        seq![dec_digit_char(n as int)]
    } else {
        dec_text((n / 10) as nat).push(dec_digit_char((n % 10) as int))
    }));
}

// ---------------------------------------------------------------------------
// UUIDs
// ---------------------------------------------------------------------------

/// Whether `c` is an ASCII hexadecimal digit, of either case.
pub open spec fn is_hex_digit(c: char) -> bool {
    ('0' <= c && c <= '9') || ('a' <= c && c <= 'f') || ('A' <= c && c <= 'F')
}

/// The value of the hexadecimal digit `c`.
pub open spec fn hex_digit_value(c: char) -> int {
    if '0' <= c && c <= '9' {
        c as int - '0' as int
    } else if 'a' <= c && c <= 'f' {
        c as int - 'a' as int + 10
    } else {
        c as int - 'A' as int + 10
    }
}

pub open spec fn all_hex_digits(s: Seq<char>) -> bool {
    forall|i: int| 0 <= i < s.len() ==> #[trigger] is_hex_digit(s[i])
}

/// The value of a sequence of hexadecimal digits, most significant first.
pub open spec fn hex_value(s: Seq<char>) -> int
    decreases s.len(),
{
    if s.len() == 0 {
        0
    } else {
        hex_value(s.drop_last()) * 16 + hex_digit_value(s.last())
    }
}

/// The lower-case hexadecimal digit for `d`, where `0 <= d < 16`.
pub open spec fn lower_hex_char(d: int) -> char {
    if d < 10 {
        (('0' as int) + d) as char
    } else {
        (('a' as int) + d - 10) as char
    }
}

/// The `n` low hexadecimal digits of `v`, lower case, most significant first.
pub open spec fn lower_hex_digits(v: nat, n: nat) -> Seq<char>
    decreases n,
{
    if n == 0 {
        Seq::empty()
    } else {
        lower_hex_digits(v / 16, (n - 1) as nat).push(lower_hex_char((v % 16) as int))
    }
}

/// The 32 hex digits of a hyphenated UUID text, with the hyphens taken out.
pub open spec fn strip_hyphens(s: Seq<char>) -> Seq<char> {
    s.subrange(0, 8) + s.subrange(9, 13) + s.subrange(14, 18) + s.subrange(19, 23) + s.subrange(
        24,
        36,
    )
}

/// Whether `s` is a hyphenated UUID text: 36 characters, hyphens at
/// positions 8, 13, 18 and 23, hexadecimal digits everywhere else.
pub open spec fn is_hyphenated(s: Seq<char>) -> bool {
    &&& s.len() == 36
    &&& s[8] == '-' && s[13] == '-' && s[18] == '-' && s[23] == '-'
    &&& all_hex_digits(strip_hyphens(s))
}

pub open spec fn ascii_lower(c: char) -> char {
    if 'A' <= c && c <= 'Z' {
        ((c as int) + 32) as char
    } else {
        c
    }
}

/// Whether the first nine characters of `s` are `urn:uuid:`, in any case.
pub open spec fn has_urn_prefix(s: Seq<char>) -> bool {
    &&& s.len() >= 9
    &&& ascii_lower(s[0]) == 'u' && ascii_lower(s[1]) == 'r' && ascii_lower(s[2]) == 'n'
    &&& s[3] == ':'
    &&& ascii_lower(s[4]) == 'u' && ascii_lower(s[5]) == 'u' && ascii_lower(s[6]) == 'i'
    &&& ascii_lower(s[7]) == 'd'
    &&& s[8] == ':'
}

/// What `Uuid::parse_str` accepts and gives (as `as_u128` reads it): 32 hex
/// digits; a hyphenated text; a hyphenated text in braces; or a hyphenated
/// text after `urn:uuid:` in any case. Hex digits may be of either case.
pub open spec fn uuid_text_value(s: Seq<char>) -> Option<u128> {
    if s.len() == 32 && all_hex_digits(s) {
        Some(hex_value(s) as u128)
    } else if s.len() == 36 && is_hyphenated(s) {
        Some(hex_value(strip_hyphens(s)) as u128)
    } else if s.len() == 38 && s[0] == '{' && s[37] == '}' && is_hyphenated(s.subrange(1, 37)) {
        Some(hex_value(strip_hyphens(s.subrange(1, 37))) as u128)
    } else if s.len() == 45 && has_urn_prefix(s) && is_hyphenated(s.skip(9)) {
        Some(hex_value(strip_hyphens(s.skip(9))) as u128)
    } else {
        None
    }
}

/// The text that a `Uuid` displays as: its 32 lower-case hex digits in
/// groups of 8, 4, 4, 4 and 12, joined by hyphens.
pub open spec fn hyphenated_text(u: u128) -> Seq<char> {
    let d = lower_hex_digits(u as nat, 32);
    d.subrange(0, 8) + seq!['-'] + d.subrange(8, 12) + seq!['-'] + d.subrange(12, 16) + seq![
        '-',
    ] + d.subrange(16, 20) + seq!['-'] + d.subrange(20, 32)
}

/// `16` to the power `n`.
pub open spec fn pow16(n: nat) -> nat
    decreases n,
{
    if n == 0 {
        1
    } else {
        16 * pow16((n - 1) as nat)
    }
}

proof fn lemma_lower_hex_char(d: int)
    requires
        0 <= d < 16,
    ensures
        is_hex_digit(lower_hex_char(d)),
        hex_digit_value(lower_hex_char(d)) == d,
{
}

/// The `n` low hex digits of a value below `16^n` read back as that value.
pub proof fn lemma_lower_hex_digits(v: nat, n: nat)
    requires
        v < pow16(n),
    ensures
        lower_hex_digits(v, n).len() == n,
        all_hex_digits(lower_hex_digits(v, n)),
        hex_value(lower_hex_digits(v, n)) == v,
    decreases n,
{
    if n == 0 {
        assert(lower_hex_digits(v, n) =~= Seq::<char>::empty());
    } else {
        assert(v / 16 < pow16((n - 1) as nat));
        lemma_lower_hex_digits(v / 16, (n - 1) as nat);
        let t = lower_hex_digits(v / 16, (n - 1) as nat);
        let s = t.push(lower_hex_char((v % 16) as int));
        lemma_lower_hex_char((v % 16) as int);
        assert(s.drop_last() =~= t);
        assert(lower_hex_digits(v, n) == s);
        assert(hex_value(s) == hex_value(t) * 16 + hex_digit_value(s.last()));
        assert forall|i: int| 0 <= i < s.len() implies #[trigger] is_hex_digit(s[i]) by {
            if i < t.len() {
                assert(is_hex_digit(t[i]));
            }
        }
    }
}

/// The display text of a UUID is hyphenated and its digits are the 32
/// lower-case hex digits of the value.
pub proof fn lemma_hyphenated_text(u: u128)
    ensures
        hyphenated_text(u).len() == 36,
        is_hyphenated(hyphenated_text(u)),
        strip_hyphens(hyphenated_text(u)) == lower_hex_digits(u as nat, 32),
        hex_value(strip_hyphens(hyphenated_text(u))) == u,
{
    reveal_with_fuel(pow16, 33);
    assert(pow16(32) == 0x1_0000_0000_0000_0000_0000_0000_0000_0000nat);
    lemma_lower_hex_digits(u as nat, 32);
    let d = lower_hex_digits(u as nat, 32);
    let h = hyphenated_text(u);
    assert(strip_hyphens(h) =~= d);
}

/// Every character of the display text of a UUID is a hyphen or a
/// hexadecimal digit.
pub proof fn lemma_hyphenated_chars(u: u128)
    ensures
        forall|i: int|
            0 <= i < hyphenated_text(u).len() ==> hyphenated_text(u)[i] == '-' || is_hex_digit(
                #[trigger] hyphenated_text(u)[i],
            ),
{
    lemma_hyphenated_text(u);
    let h = hyphenated_text(u);
    let d = lower_hex_digits(u as nat, 32);
    assert forall|i: int| 0 <= i < h.len() implies h[i] == '-' || is_hex_digit(#[trigger] h[i]) by {
        if i < 8 {
            assert(h[i] == d[i]);
        } else if 8 < i < 13 {
            assert(h[i] == d[i - 1]);
        } else if 13 < i < 18 {
            assert(h[i] == d[i - 2]);
        } else if 18 < i < 23 {
            assert(h[i] == d[i - 3]);
        } else if 23 < i {
            assert(h[i] == d[i - 4]);
        }
    }
}

/// Reading back the display text of a UUID with `parse_uuid`'s rules gives
/// the same UUID.
pub proof fn lemma_uuid_text_roundtrip(u: u128)
    ensures
        uuid_text_value(hyphenated_text(u)) == Some(u),
{
    lemma_hyphenated_text(u);
}

/// Parses a UUID text with `uuid::Uuid::parse_str`; the result is the
/// `u128` that `Uuid::as_u128` gives.
///
/// Claimed of the outside code: it accepts exactly the four text forms of
/// `uuid_text_value` (as `parser.rs` of the `uuid` crate checks them) and
/// decodes the hex digits big-endian.
#[verifier::external_body]
pub(crate) fn parse_uuid(s: &str) -> (r: Option<u128>)
    ensures
        r == uuid_text_value(s@),
{
    match uuid::Uuid::parse_str(s) {
        Ok(u) => Some(u.as_u128()),
        Err(_) => None,
    }
}

/// The UUID that a UUID text written in the code stands for.
pub fn literal_uuid(s: &str) -> (r: u128)
    requires
        uuid_text_value(s@) is Some,
    ensures
        uuid_text_value(s@) == Some(r),
{
    match parse_uuid(s) {
        Some(u) => u,
        None => 0,
    }
}

/// The display text of the UUID `u` (`uuid::Uuid::from_u128(u).to_string()`).
///
/// Claimed of the outside code: `Display` for `Uuid` writes the lower-case
/// hyphenated form (`fmt.rs` of the `uuid` crate).
#[verifier::external_body]
pub(crate) fn uuid_to_string(u: u128) -> (s: String)
    ensures
        s@ == hyphenated_text(u),
{
    uuid::Uuid::from_u128(u).to_string()
}

/// Whether `u` carries the version nibble `version` and the RFC 4122
/// variant bits `10`.
pub open spec fn has_version_and_variant(u: u128, version: u128) -> bool {
    &&& (u >> 76u128) & 0xfu128 == version
    &&& (u >> 62u128) & 0x3u128 == 0x2u128
}

/// A fresh random UUID (`uuid::Uuid::new_v4`).
///
/// Claimed of the outside code: the value is random, with version 4 and the
/// RFC 4122 variant set (`v4.rs` of the `uuid` crate masks them in).
#[verifier::external_body]
pub(crate) fn new_random_uuid() -> (u: u128)
    ensures
        has_version_and_variant(u, 4),
{
    uuid::Uuid::new_v4().as_u128()
}

} // verus!

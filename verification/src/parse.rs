//! Extracting a bounding box from free-form text.
//!
//! The text is split on commas; each token is trimmed of ASCII whitespace and
//! read as an unsigned decimal integer (one leading plus sign is allowed, as
//! Rust's own `u32` parsing has it). Tokens that fail to parse are
//! silently dropped, and the result is accepted only when exactly four
//! integers remain — the "drop silently, then count" policy, kept here as a
//! deliberate design choice.

use vstd::prelude::*;

use crate::errors::IconError;
use crate::geometry::Rectangle;

verus! {

/// ASCII whitespace: space, tab, line feed, vertical tab, form feed,
/// carriage return — the ASCII bytes that Rust's `char::is_whitespace`
/// accepts.
pub open spec fn is_ascii_whitespace(b: u8) -> bool {
    b == 32 || b == 9 || b == 10 || b == 11 || b == 12 || b == 13
}

/// An ASCII decimal digit.
pub open spec fn is_ascii_digit(b: u8) -> bool {
    48 <= b && b <= 57
}

/// The numeric value of an ASCII digit.
pub open spec fn digit_value(b: u8) -> int {
    b - 48
}

/// The byte sequence with leading ASCII whitespace removed.
pub open spec fn trim_front(s: Seq<u8>) -> Seq<u8>
    decreases s.len(),
{
    if s.len() > 0 && is_ascii_whitespace(s[0]) {
        trim_front(s.drop_first())
    } else {
        s
    }
}

/// The byte sequence with trailing ASCII whitespace removed.
pub open spec fn trim_back(s: Seq<u8>) -> Seq<u8>
    decreases s.len(),
{
    if s.len() > 0 && is_ascii_whitespace(s.last()) {
        trim_back(s.drop_last())
    } else {
        s
    }
}

/// The byte sequence with ASCII whitespace removed from both ends.
pub open spec fn trim(s: Seq<u8>) -> Seq<u8> {
    trim_back(trim_front(s))
}

/// Every byte of the sequence is an ASCII decimal digit.
pub open spec fn all_digits(s: Seq<u8>) -> bool {
    forall|i: int| 0 <= i < s.len() ==> is_ascii_digit(#[trigger] s[i])
}

/// The value of a sequence of ASCII digits read as a decimal numeral.
pub open spec fn decimal_value(s: Seq<u8>) -> int
    decreases s.len(),
{
    if s.len() == 0 {
        0
    } else {
        decimal_value(s.drop_last()) * 10 + digit_value(s.last())
    }
}

/// The digit run of a trimmed token: an unsigned numeral may carry one
/// optional leading plus sign, as Rust's `u32` parsing accepts.
pub open spec fn numeral_of(tr: Seq<u8>) -> Seq<u8> {
    if tr.len() > 0 && tr[0] == 43 {
        tr.drop_first()
    } else {
        tr
    }
}

/// What one comma-separated token yields: its trimmed bytes, less one
/// optional leading plus sign, read as a decimal numeral — when they are
/// non-empty, all digits, and the value fits in `u32`; nothing otherwise.
pub open spec fn token_value(t: Seq<u8>) -> Option<u32> {
    let digits = numeral_of(trim(t));
    if digits.len() > 0 && all_digits(digits) && decimal_value(digits) <= u32::MAX {
        Some(decimal_value(digits) as u32)
    } else {
        None
    }
}

/// A token's contribution to the coordinate list: one value or none.
pub open spec fn value_seq(o: Option<u32>) -> Seq<u32> {
    match o {
        Some(v) => seq![v],
        None => Seq::empty(),
    }
}

/// The coordinate values of `s` when `cur` holds the bytes of the token
/// read so far: commas end a token, every other byte extends it, and the
/// end of input ends the last token.
pub open spec fn token_values_rec(s: Seq<u8>, cur: Seq<u8>) -> Seq<u32>
    decreases s.len(),
{
    if s.len() == 0 {
        value_seq(token_value(cur))
    } else if s[0] == 44 {
        value_seq(token_value(cur)) + token_values_rec(s.drop_first(), Seq::empty())
    } else {
        token_values_rec(s.drop_first(), cur.push(s[0]))
    }
}

/// The integers parsed out of the text, in order, with unparseable
/// comma-separated tokens silently dropped.
pub open spec fn parsed_coordinates(s: Seq<u8>) -> Seq<u32> {
    token_values_rec(s, Seq::empty())
}

/// The rectangle formed from a four-element coordinate list, in the order
/// `left, top, right, bottom`.
pub open spec fn rect_of_coordinates(vals: Seq<u32>) -> Rectangle
    recommends
        vals.len() == 4,
{
    Rectangle { left: vals[0], top: vals[1], right: vals[2], bottom: vals[3] }
}

proof fn lemma_all_digits_drop_last(s: Seq<u8>)
    requires
        s.len() > 0,
        all_digits(s),
    ensures
        all_digits(s.drop_last()),
{
    assert forall|i: int| 0 <= i < s.drop_last().len() implies is_ascii_digit(
        #[trigger] s.drop_last()[i],
    ) by {
        assert(s.drop_last()[i] == s[i]);
    }
}

proof fn lemma_decimal_value_nonneg(s: Seq<u8>)
    requires
        all_digits(s),
    ensures
        decimal_value(s) >= 0,
    decreases s.len(),
{
    if s.len() > 0 {
        lemma_all_digits_drop_last(s);
        lemma_decimal_value_nonneg(s.drop_last());
    }
}

/// Appending further digits never decreases a numeral's value, so a prefix
/// that already exceeds `u32::MAX` dooms the whole token.
proof fn lemma_decimal_value_prefix_le(s: Seq<u8>, k: int)
    requires
        all_digits(s),
        0 <= k <= s.len(),
    ensures
        decimal_value(s.subrange(0, k)) <= decimal_value(s),
    decreases s.len(),
{
    if k == s.len() {
        assert(s.subrange(0, k) =~= s);
    } else {
        let t = s.drop_last();
        lemma_all_digits_drop_last(s);
        assert(s.subrange(0, k) =~= t.subrange(0, k));
        lemma_decimal_value_prefix_le(t, k);
        lemma_decimal_value_nonneg(t);
    }
}

/// Whether a byte is ASCII whitespace.
pub fn byte_is_whitespace(b: u8) -> (r: bool)
    ensures
        r == is_ascii_whitespace(b),
{
    b == 32 || b == 9 || b == 10 || b == 11 || b == 12 || b == 13
}

/// Whether a byte is an ASCII decimal digit.
pub fn byte_is_digit(b: u8) -> (r: bool)
    ensures
        r == is_ascii_digit(b),
{
    48 <= b && b <= 57
}

/// Read one comma-separated token: trim ASCII whitespace from both ends,
/// then parse the remainder, less one optional leading plus sign, as an
/// unsigned decimal integer.
pub fn parse_token(t: &[u8]) -> (r: Option<u32>)
    ensures
        r == token_value(t@),
{
    let n: usize = t.len();
    let mut i: usize = 0;
    proof {
        assert(t@.subrange(0, n as int) =~= t@);
    }
    while i < n && byte_is_whitespace(t[i])
        invariant
            n == t@.len(),
            i <= n,
            trim_front(t@) == trim_front(t@.subrange(i as int, n as int)),
        decreases n - i,
    {
        proof {
            let rem = t@.subrange(i as int, n as int);
            assert(rem[0] == t@[i as int]);
            assert(rem.drop_first() =~= t@.subrange(i as int + 1, n as int));
        }
        i += 1;
    }
    proof {
        let rem = t@.subrange(i as int, n as int);
        if rem.len() > 0 {
            assert(rem[0] == t@[i as int]);
        }
        assert(trim_front(t@) == rem);
    }
    let mut j: usize = n;
    while j > i && byte_is_whitespace(t[j - 1])
        invariant
            n == t@.len(),
            i <= j <= n,
            trim_front(t@) == t@.subrange(i as int, n as int),
            trim(t@) == trim_back(t@.subrange(i as int, j as int)),
        decreases j,
    {
        proof {
            let rem = t@.subrange(i as int, j as int);
            assert(rem.last() == t@[j - 1]);
            assert(rem.drop_last() =~= t@.subrange(i as int, j as int - 1));
        }
        j -= 1;
    }
    proof {
        let rem = t@.subrange(i as int, j as int);
        if rem.len() > 0 {
            assert(rem.last() == t@[j - 1]);
        }
        assert(trim(t@) == rem);
    }
    if i == j {
        return None;
    }
    let mut start: usize = i;
    if t[i] == 43 {
        start = i + 1;
    }
    proof {
        let trimmed = t@.subrange(i as int, j as int);
        assert(trimmed[0] == t@[i as int]);
        if t@[i as int] == 43 {
            assert(trimmed.drop_first() =~= t@.subrange(i as int + 1, j as int));
        }
        assert(numeral_of(trimmed) == t@.subrange(start as int, j as int));
    }
    if start == j {
        return None;
    }
    let ghost digits: Seq<u8> = t@.subrange(start as int, j as int);
    let mut val: u32 = 0;
    let mut k: usize = start;
    proof {
        assert(t@.subrange(start as int, start as int) =~= Seq::<u8>::empty());
    }
    while k < j
        invariant
            n == t@.len(),
            start <= k <= j <= n,
            start < j,
            digits == t@.subrange(start as int, j as int),
            numeral_of(trim(t@)) == digits,
            all_digits(t@.subrange(start as int, k as int)),
            val as int == decimal_value(t@.subrange(start as int, k as int)),
        decreases j - k,
    {
        let b: u8 = t[k];
        if !byte_is_digit(b) {
            proof {
                assert(digits[k - start] == b);
            }
            return None;
        }
        let d: u32 = (b - 48) as u32;
        let wide: u64 = val as u64 * 10 + d as u64;
        proof {
            let pre = t@.subrange(start as int, k as int + 1);
            assert(pre.drop_last() =~= t@.subrange(start as int, k as int));
            assert(pre.last() == b);
            assert(decimal_value(pre) == wide as int);
            assert forall|h: int| 0 <= h < pre.len() implies is_ascii_digit(
                #[trigger] pre[h],
            ) by {
                if h < pre.len() - 1 {
                    assert(pre[h] == t@.subrange(start as int, k as int)[h]);
                }
            }
        }
        if wide > 0xFFFF_FFFFu64 {
            proof {
                let pre = t@.subrange(start as int, k as int + 1);
                if all_digits(digits) {
                    assert(pre =~= digits.subrange(0, k as int + 1 - start as int));
                    lemma_decimal_value_prefix_le(digits, k as int + 1 - start as int);
                }
            }
            return None;
        }
        val = wide as u32;
        k += 1;
    }
    proof {
        assert(t@.subrange(start as int, k as int) == digits);
    }
    Some(val)
}

/// Split the text on commas and collect, in order, the tokens that parse as
/// unsigned decimal integers; tokens that fail to parse are dropped.
pub fn parse_coordinates(s: &[u8]) -> (r: Vec<u32>)
    ensures
        r@ == parsed_coordinates(s@),
{
    let n: usize = s.len();
    let mut values: Vec<u32> = Vec::new();
    let mut cur: Vec<u8> = Vec::new();
    let mut i: usize = 0;
    proof {
        assert(s@.subrange(0, n as int) =~= s@);
    }
    while i < n
        invariant
            n == s@.len(),
            i <= n,
            parsed_coordinates(s@) == values@ + token_values_rec(
                s@.subrange(i as int, n as int),
                cur@,
            ),
        decreases n - i,
    {
        let b: u8 = s[i];
        proof {
            let rem = s@.subrange(i as int, n as int);
            assert(rem[0] == b);
            assert(rem.drop_first() =~= s@.subrange(i as int + 1, n as int));
        }
        if b == 44 {
            let ghost old_values: Seq<u32> = values@;
            let ghost old_cur: Seq<u8> = cur@;
            match parse_token(cur.as_slice()) {
                Some(v) => values.push(v),
                None => {},
            }
            proof {
                assert(values@ =~= old_values + value_seq(token_value(old_cur)));
            }
            cur = Vec::new();
            proof {
                assert(cur@ =~= Seq::<u8>::empty());
            }
        } else {
            cur.push(b);
        }
        i += 1;
    }
    proof {
        assert(s@.subrange(n as int, n as int) =~= Seq::<u8>::empty());
    }
    let ghost old_values: Seq<u32> = values@;
    let ghost old_cur: Seq<u8> = cur@;
    match parse_token(cur.as_slice()) {
        Some(v) => values.push(v),
        None => {},
    }
    proof {
        assert(values@ =~= old_values + value_seq(token_value(old_cur)));
        assert(values@ =~= parsed_coordinates(s@));
    }
    values
}

/// Parse a bounding box out of free-form text: the text must yield exactly
/// four integers, taken in order as `left, top, right, bottom`; any other
/// count is a `ParseError`.
pub fn parse_bounding_box(s: &[u8]) -> (res: Result<Rectangle, IconError>)
    ensures
        res is Ok <==> parsed_coordinates(s@).len() == 4,
        res is Ok ==> res->Ok_0 == rect_of_coordinates(parsed_coordinates(s@)),
        res is Err ==> res->Err_0 == IconError::ParseError,
{
    let vals: Vec<u32> = parse_coordinates(s);
    if vals.len() == 4 {
        Ok(Rectangle { left: vals[0], top: vals[1], right: vals[2], bottom: vals[3] })
    } else {
        Err(IconError::ParseError)
    }
}

} // verus!

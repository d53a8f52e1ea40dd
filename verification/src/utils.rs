//! Platform fact helpers: decoding wide strings and reading the
//! operating system's major version.

use vstd::prelude::*;
use vstd::string::StrSliceExecFns;
use crate::error::{XCapError, XCapResult};

verus! {

/// What `String::from_utf16` yields for a unit sequence: the decoded
/// characters, or nothing when the units are not valid UTF-16.
pub uninterp spec fn utf16_decoded(units: Seq<u16>) -> Option<Seq<char>>;

/// Relies on `String::from_utf16`: whether the units decode, and to
/// which characters, depends on the code units alone.
#[verifier::external_body]
fn string_from_utf16(units: &Vec<u16>) -> (r: Option<String>)
    ensures
        r.is_some() <==> utf16_decoded(units@).is_some(),
        r.is_some() ==> r.unwrap()@ == utf16_decoded(units@).unwrap(),
{
    String::from_utf16(units.as_slice()).ok()
}

/// Relies on sysinfo's `System::os_version` to ask the running system
/// for its version string; the result depends on the environment, so
/// nothing is promised of it.
#[verifier::external_body]
fn query_os_version() -> (r: Option<String>) {
    sysinfo::System::os_version()
}

/// The code units before the first zero unit (all of them when no zero
/// occurs).
pub open spec fn null_prefix(s: Seq<u16>) -> Seq<u16>
    decreases s.len(),
{
    if s.len() == 0 {
        s
    } else if s[0] == 0 {
        Seq::empty()
    } else {
        seq![s[0]] + null_prefix(s.drop_first())
    }
}

proof fn lemma_null_prefix_take(s: Seq<u16>, i: int)
    requires
        0 <= i <= s.len(),
        forall|j: int| 0 <= j < i ==> s[j] != 0,
        i == s.len() || s[i] == 0,
    ensures
        null_prefix(s) == s.take(i),
    decreases s.len(),
{
    if i == 0 {
        if s.len() == 0 {
            assert(null_prefix(s) =~= s.take(0));
        } else {
            assert(s[0] == 0);
            assert(null_prefix(s) =~= s.take(0));
        }
    } else {
        assert(s[0] != 0);
        lemma_null_prefix_take(s.drop_first(), i - 1);
        assert(null_prefix(s) == seq![s[0]] + s.drop_first().take(i - 1));
        assert(seq![s[0]] + s.drop_first().take(i - 1) =~= s.take(i));
    }
}

/// Decode a zero-terminated wide string: the units before the first
/// zero (or all of them when no zero occurs) interpreted as UTF-16.
pub fn wide_string_to_string(wide_string: &[u16]) -> (r: XCapResult<String>)
    ensures
        utf16_decoded(null_prefix(wide_string@)).is_some() ==> r.is_ok() && r.unwrap()@
            == utf16_decoded(null_prefix(wide_string@)).unwrap(),
        utf16_decoded(null_prefix(wide_string@)).is_none() ==> r == Err::<String, XCapError>(
            XCapError::InvalidUtf16,
        ),
{
    let len: usize = wide_string.len();
    let mut prefix: Vec<u16> = Vec::new();
    let mut i: usize = 0;
    while i < len && wide_string[i] != 0
        invariant
            i <= len,
            len == wide_string@.len(),
            prefix@ == wide_string@.take(i as int),
            forall|j: int| 0 <= j < i ==> wide_string@[j] != 0,
        decreases len - i,
    {
        let u = wide_string[i];
        prefix.push(u);
        proof {
            assert(prefix@ =~= wide_string@.take(i + 1));
        }
        i = i + 1;
    }
    proof {
        lemma_null_prefix_take(wide_string@, i as int);
    }
    match string_from_utf16(&prefix) {
        Some(s) => Ok(s),
        None => Err(XCapError::InvalidUtf16),
    }
}

/// The characters before the first space (all of them when no space
/// occurs).
pub open spec fn first_token(s: Seq<char>) -> Seq<char>
    decreases s.len(),
{
    if s.len() == 0 {
        s
    } else if s[0] == ' ' {
        Seq::empty()
    } else {
        seq![s[0]] + first_token(s.drop_first())
    }
}

proof fn lemma_first_token_take(s: Seq<char>, i: int)
    requires
        0 <= i <= s.len(),
        forall|j: int| 0 <= j < i ==> s[j] != ' ',
        i == s.len() || s[i] == ' ',
    ensures
        first_token(s) == s.take(i),
    decreases s.len(),
{
    if i == 0 {
        if s.len() == 0 {
            assert(first_token(s) =~= s.take(0));
        } else {
            assert(s[0] == ' ');
            assert(first_token(s) =~= s.take(0));
        }
    } else {
        assert(s[0] != ' ');
        lemma_first_token_take(s.drop_first(), i - 1);
        assert(first_token(s) == seq![s[0]] + s.drop_first().take(i - 1));
        assert(seq![s[0]] + s.drop_first().take(i - 1) =~= s.take(i));
    }
}

/// An ASCII decimal digit.
pub open spec fn is_digit_char(c: char) -> bool {
    48 <= c as u32 <= 57
}

/// The numeric value of one digit character.
pub open spec fn digit_val(c: char) -> int {
    c as u32 - 48
}

/// Whether every character of `s` is a decimal digit.
pub open spec fn all_digits(s: Seq<char>) -> bool {
    forall|j: int| 0 <= j < s.len() ==> is_digit_char(#[trigger] s[j])
}

/// The decimal value of a digit sequence.
pub open spec fn digits_value(s: Seq<char>) -> int
    decreases s.len(),
{
    if s.len() == 0 {
        0
    } else {
        digits_value(s.drop_last()) * 10 + digit_val(s.last())
    }
}

proof fn lemma_digits_value_nonneg(s: Seq<char>)
    requires
        all_digits(s),
    ensures
        digits_value(s) >= 0,
    decreases s.len(),
{
    if s.len() > 0 {
        assert(all_digits(s.drop_last()));
        lemma_digits_value_nonneg(s.drop_last());
    }
}

/// How an eight-bit unsigned integer parses from text: an optional
/// leading plus sign, then at least one decimal digit, with a value of
/// at most 255; anything else fails.
pub open spec fn parse_u8_spec(s: Seq<char>) -> Option<u8> {
    let digits = if s.len() > 0 && s[0] == '+' {
        s.drop_first()
    } else {
        s
    };
    if digits.len() == 0 || !all_digits(digits) {
        None::<u8>
    } else if digits_value(digits) > 255 {
        None::<u8>
    } else {
        Some(digits_value(digits) as u8)
    }
}

/// The major version carried by a version string: its first
/// space-separated token parsed as an eight-bit integer, and zero when
/// that parse fails.
pub open spec fn parse_major_spec(s: Seq<char>) -> u8 {
    match parse_u8_spec(first_token(s)) {
        Some(v) => v,
        None => 0,
    }
}

/// Parse the major version out of a version string such as
/// `"10 (20348)"`: everything before the first space, read as a decimal
/// eight-bit integer, with zero for anything unparsable.
pub fn parse_os_major_version(version: &str) -> (r: u8)
    ensures
        r == parse_major_spec(version@),
{
    let len: usize = version.unicode_len();
    let mut end: usize = 0;
    while end < len && version.get_char(end) != ' '
        invariant
            end <= len,
            len == version@.len(),
            forall|j: int| 0 <= j < end ==> version@[j] != ' ',
        decreases len - end,
    {
        end = end + 1;
    }
    proof {
        lemma_first_token_take(version@, end as int);
    }
    let ghost token = version@.take(end as int);
    let mut start: usize = 0;
    if end > 0 && version.get_char(0) == '+' {
        start = 1;
    }
    let ghost digits = if token.len() > 0 && token[0] == '+' {
        token.drop_first()
    } else {
        token
    };
    proof {
        assert(digits =~= version@.subrange(start as int, end as int));
    }
    if start == end {
        return 0;
    }
    let mut acc: u32 = 0;
    let mut i: usize = start;
    while i < end
        invariant
            start <= i <= end,
            end <= len,
            len == version@.len(),
            token == version@.take(end as int),
            first_token(version@) == token,
            digits == (if token.len() > 0 && token[0] == '+' {
                token.drop_first()
            } else {
                token
            }),
            digits =~= version@.subrange(start as int, end as int),
            forall|j: int| start <= j < i ==> is_digit_char(#[trigger] version@[j]),
            acc <= 256,
            acc <= 255 ==> acc == digits_value(version@.subrange(start as int, i as int)),
            acc == 256 ==> digits_value(version@.subrange(start as int, i as int)) > 255,
        decreases end - i,
    {
        let c = version.get_char(i);
        let d = c as u32;
        if d < 48 || d > 57 {
            proof {
                assert(!is_digit_char(digits[i - start]));
                assert(!all_digits(digits));
            }
            return 0;
        }
        let ghost pre = version@.subrange(start as int, i as int);
        let ghost cur = version@.subrange(start as int, i + 1);
        proof {
            assert(cur.drop_last() =~= pre);
            assert(cur.last() == version@[i as int]);
            assert(digits_value(cur) == digits_value(pre) * 10 + digit_val(version@[i as int]));
            if acc == 256 {
                assert(forall|j: int| 0 <= j < pre.len() ==> is_digit_char(#[trigger] pre[j]));
                lemma_digits_value_nonneg(pre);
            }
        }
        acc = acc * 10 + (d - 48);
        if acc > 255 {
            acc = 256;
        }
        i = i + 1;
    }
    proof {
        assert(digits =~= version@.subrange(start as int, end as int));
        assert(forall|j: int| 0 <= j < digits.len() ==> is_digit_char(#[trigger] digits[j]));
    }
    if acc <= 255 {
        acc as u8
    } else {
        0
    }
}

/// Ask the running system for its major version; zero when the version
/// string is missing or unparsable. The value depends on the
/// environment, so no more is stated of it.
pub fn get_os_major_version() -> u8 {
    match query_os_version() {
        Some(v) => parse_os_major_version(v.as_str()),
        None => 0,
    }
}

} // verus!

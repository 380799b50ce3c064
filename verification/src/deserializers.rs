//! Field decoders: pure transformations of a single textual token into
//! a typed value, tolerating the legacy status-dump encoding (sentinel
//! strings for "undefined", hex strings with an optional prefix, and
//! composite `tag:value` / `value unit` encodings).

use vstd::prelude::*;
use vstd::string::*;

use crate::map::QueueingValue;
use crate::text::{i32_token_ok, i32_token_val, parse_i32_token,
    parse_radix_u64, parse_u32_token, radix_u64_ok, radix_val, str_eq, u32_token_ok,
    u32_token_val};

verus! {

/// A failed decode, carrying the offending raw text.
#[derive(Debug)]
pub enum DecodeError {
    /// A present field held a malformed or unrecognized token; carries
    /// the raw token.
    Token(String),
    /// A field or container had the wrong shape (for instance text
    /// where a number is required); carries the wire name of the field
    /// or container.
    Structure(String),
}

/// Ghost counterpart of [`DecodeError`], over character sequences.
pub enum SpecErr {
    Token(Seq<char>),
    Structure(Seq<char>),
}

impl View for DecodeError {
    type V = SpecErr;

    open spec fn view(&self) -> SpecErr {
        match self {
            DecodeError::Token(s) => SpecErr::Token(s@),
            DecodeError::Structure(s) => SpecErr::Structure(s@),
        }
    }
}

/// Decodes an optional string: the sentinel token `[undef]` means
/// "absent"; every other text, the empty string included, is a present
/// value with that exact text. Total: never fails.
pub fn optional_string(s: &str) -> (r: Option<String>)
    ensures
        r is None <==> s@ == "[undef]"@,
        r matches Some(t) ==> t@ == s@,
{
    if str_eq(s, "[undef]") {
        None
    } else {
        Some(s.to_owned())
    }
}

/// The digit part of a hexadecimal token: one leading `0x` is skipped,
/// everything else is kept.
pub open spec fn hex_digit_part(t: Seq<char>) -> Seq<char> {
    if t.len() >= 2 && t.take(2) == "0x"@ {
        t.skip(2)
    } else {
        t
    }
}

/// Whether `t` is a hexadecimal token: an optional `0x` prefix followed
/// by hex digits only, with a value that fits in a `u64`.
pub open spec fn hex_token_ok(t: Seq<char>) -> bool {
    radix_u64_ok(hex_digit_part(t), 16)
}

/// Value of a hexadecimal token.
pub open spec fn hex_token_val(t: Seq<char>) -> nat {
    radix_val(hex_digit_part(t), 16)
}

/// Decodes a hexadecimal string (optional `0x` prefix, then hex digits)
/// into the numerically equal 64-bit value; fails on any non-hex
/// character after the prefix is stripped, on an empty digit part, and
/// on a value that does not fit.
pub fn hex_string(s: &str) -> (r: Result<u64, DecodeError>)
    ensures
        r is Ok <==> hex_token_ok(s@),
        r matches Ok(v) ==> v == hex_token_val(s@),
        r matches Err(e) ==> e@ == SpecErr::Token(s@),
{
    let len: usize = s.unicode_len();
    let digits: &str = if len >= 2 && s.get_char(0) == '0' && s.get_char(1) == 'x' {
        let d = s.substring_char(2, len);
        proof {
            reveal_strlit("0x");
            assert(s@.take(2) =~= "0x"@);
            assert(d@ =~= hex_digit_part(s@));
        }
        d
    } else {
        proof {
            reveal_strlit("0x");
            if s@.len() >= 2 && s@.take(2) == "0x"@ {
                assert(s@[0] == s@.take(2)[0] && s@[1] == s@.take(2)[1]);
                assert(false);
            }
        }
        s
    };
    match parse_radix_u64(digits, 16) {
        Some(v) => Ok(v),
        None => Err(DecodeError::Token(s.to_owned())),
    }
}

/// Whether `t` starts with the `deferred:` tag.
pub open spec fn deferred_prefix_ok(t: Seq<char>) -> bool {
    t.len() >= 9 && t.take(9) == "deferred:"@
}

/// Whether `t` is a whole `deferred:<int>` token.
pub open spec fn deferred_ok(t: Seq<char>) -> bool {
    deferred_prefix_ok(t) && i32_token_ok(t.skip(9))
}

/// Value of a `deferred:<int>` token.
pub open spec fn deferred_val(t: Seq<char>) -> int {
    i32_token_val(t.skip(9))
}

/// Decodes a `deferred:<int>` token into the signed 32-bit integer
/// after the tag; fails without that exact prefix, and on a suffix that
/// is not an integer in range.
pub fn deferred_failback(s: &str) -> (r: Result<i32, DecodeError>)
    ensures
        r is Ok <==> deferred_ok(s@),
        r matches Ok(n) ==> n as int == deferred_val(s@),
        r matches Err(e) ==> e@ == SpecErr::Token(s@),
{
    let len: usize = s.unicode_len();
    proof {
        reveal_strlit("deferred:");
    }
    if len < 9 {
        return Err(DecodeError::Token(s.to_owned()));
    }
    let prefix = s.substring_char(0, 9);
    if !str_eq(prefix, "deferred:") {
        proof {
            assert(s@.take(9) =~= prefix@);
        }
        return Err(DecodeError::Token(s.to_owned()));
    }
    let suffix = s.substring_char(9, len);
    proof {
        assert(s@.take(9) =~= prefix@);
        assert(suffix@ =~= s@.skip(9));
    }
    match parse_i32_token(suffix) {
        Some(n) => Ok(n),
        None => Err(DecodeError::Token(s.to_owned())),
    }
}

/// Whether `t` ends with the given suffix.
pub open spec fn has_suffix(t: Seq<char>, suffix: Seq<char>) -> bool {
    t.len() >= suffix.len() && t.skip(t.len() - suffix.len()) == suffix
}

/// The number part of a `<uint> sec` / `<uint> chk` token.
pub open spec fn queueing_number_part(t: Seq<char>) -> Seq<char> {
    t.take(t.len() - 4)
}

/// Whether `t` is a whole queueing token: `<uint> sec` or `<uint> chk`
/// with a number that fits in a `u32`.
pub open spec fn queueing_ok(t: Seq<char>) -> bool {
    (has_suffix(t, " sec"@) || has_suffix(t, " chk"@)) && u32_token_ok(queueing_number_part(t))
}

/// Value of a queueing token: the number, tagged as seconds or checks
/// by the unit suffix.
pub open spec fn queueing_spec_val(t: Seq<char>) -> QueueingValue {
    if has_suffix(t, " sec"@) {
        QueueingValue::Seconds(u32_token_val(queueing_number_part(t)) as u32)
    } else {
        QueueingValue::Checks(u32_token_val(queueing_number_part(t)) as u32)
    }
}

/// Decodes a `<uint> sec` or `<uint> chk` token into the tagged number
/// of seconds or checks; fails when neither unit suffix is present, and
/// on a number part that is not an unsigned integer in range.
pub fn queueing_value(s: &str) -> (r: Result<QueueingValue, DecodeError>)
    ensures
        r is Ok <==> queueing_ok(s@),
        r matches Ok(v) ==> v == queueing_spec_val(s@),
        r matches Err(e) ==> e@ == SpecErr::Token(s@),
{
    let len: usize = s.unicode_len();
    proof {
        reveal_strlit(" sec");
        reveal_strlit(" chk");
    }
    if len < 4 {
        return Err(DecodeError::Token(s.to_owned()));
    }
    let unit = s.substring_char(len - 4, len);
    proof {
        assert(unit@ =~= s@.skip(s@.len() - 4));
    }
    let seconds: bool = str_eq(unit, " sec");
    if !seconds && !str_eq(unit, " chk") {
        return Err(DecodeError::Token(s.to_owned()));
    }
    let number = s.substring_char(0, len - 4);
    proof {
        assert(number@ =~= queueing_number_part(s@));
    }
    match parse_u32_token(number) {
        Some(n) => {
            if seconds {
                Ok(QueueingValue::Seconds(n))
            } else {
                Ok(QueueingValue::Checks(n))
            }
        },
        None => Err(DecodeError::Token(s.to_owned())),
    }
}

} // verus!

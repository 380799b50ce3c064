//! Character-level helpers: string equality, decimal and hexadecimal
//! integer parsing, and decimal rendering of integers.

use vstd::prelude::*;
use vstd::string::*;

verus! {

/// Whether `c` is an ASCII decimal digit.
pub open spec fn is_digit(c: char) -> bool {
    '0' <= c && c <= '9'
}

/// Whether `c` is a digit of the given base (10 or 16; base 16 accepts
/// both letter cases).
pub open spec fn is_radix_digit(c: char, base: nat) -> bool {
    if base == 16 {
        is_digit(c) || ('a' <= c && c <= 'f') || ('A' <= c && c <= 'F')
    } else {
        is_digit(c)
    }
}

/// Numeric value of a digit character.
pub open spec fn radix_digit_val(c: char) -> nat {
    if is_digit(c) {
        ((c as int) - ('0' as int)) as nat
    } else if 'a' <= c && c <= 'f' {
        ((c as int) - ('a' as int) + 10) as nat
    } else if 'A' <= c && c <= 'F' {
        ((c as int) - ('A' as int) + 10) as nat
    } else {
        0
    }
}

/// Whether every character of `t` is a digit of the given base.
pub open spec fn all_radix_digits(t: Seq<char>, base: nat) -> bool {
    forall|i: int| 0 <= i < t.len() ==> is_radix_digit(#[trigger] t[i], base)
}

/// Value of a digit sequence in the given base, most significant first.
pub open spec fn radix_val(t: Seq<char>, base: nat) -> nat
    decreases t.len(),
{
    if t.len() == 0 {
        0
    } else {
        radix_val(t.drop_last(), base) * base + radix_digit_val(t.last())
    }
}

/// Whether `t` is a non-empty digit sequence in the given base whose
/// value fits in a `u64`.
pub open spec fn radix_u64_ok(t: Seq<char>, base: nat) -> bool {
    t.len() > 0 && all_radix_digits(t, base) && radix_val(t, base) <= u64::MAX
}

/// A prefix of a digit sequence never exceeds the whole sequence in value.
proof fn lemma_radix_val_prefix(t: Seq<char>, base: nat, i: int)
    requires
        0 <= i <= t.len(),
        base >= 1,
    ensures
        radix_val(t.take(i), base) <= radix_val(t, base),
    decreases t.len() - i,
{
    if i == t.len() {
        assert(t.take(i) =~= t);
    } else {
        assert(t.take(i + 1).drop_last() =~= t.take(i));
        assert(radix_val(t.take(i + 1), base) == radix_val(t.take(i), base) * base
            + radix_digit_val(t.take(i + 1).last()));
        assert(radix_val(t.take(i), base) * base >= radix_val(t.take(i), base) * 1)
            by (nonlinear_arith)
            requires base >= 1,
        ;
        lemma_radix_val_prefix(t, base, i + 1);
    }
}

/// Decodes one character as a digit of the given base.
fn radix_digit(c: char, base: u64) -> (r: Option<u64>)
    requires
        base == 10 || base == 16,
    ensures
        match r {
            Some(d) => is_radix_digit(c, base as nat) && d == radix_digit_val(c) && d < base,
            None => !is_radix_digit(c, base as nat),
        },
{
    let cv = c as u32;
    if 48 <= cv && cv <= 57 {
        Some((cv - 48) as u64)
    } else if base == 16 && 97 <= cv && cv <= 102 {
        Some((cv - 87) as u64)
    } else if base == 16 && 65 <= cv && cv <= 70 {
        Some((cv - 55) as u64)
    } else {
        None
    }
}

/// Parses a non-empty, unsigned digit string in the given base into a
/// `u64`, rejecting empty input, any non-digit, and overflow.
pub fn parse_radix_u64(s: &str, base: u64) -> (r: Option<u64>)
    requires
        base == 10 || base == 16,
    ensures
        match r {
            Some(v) => radix_u64_ok(s@, base as nat) && v == radix_val(s@, base as nat),
            None => !radix_u64_ok(s@, base as nat),
        },
{
    let len: usize = s.unicode_len();
    if len == 0 {
        return None;
    }
    let mut acc: u64 = 0;
    let mut i: usize = 0;
    while i < len
        invariant
            base == 10 || base == 16,
            0 <= i <= len,
            len == s@.len(),
            all_radix_digits(s@.take(i as int), base as nat),
            acc == radix_val(s@.take(i as int), base as nat),
        decreases len - i,
    {
        let c = s.get_char(i);
        let d = match radix_digit(c, base) {
            Some(d) => d,
            None => {
                assert(!all_radix_digits(s@, base as nat));
                return None;
            },
        };
        let limit: u64 = u64::MAX / base;
        if acc > limit {
            proof {
                assert(s@.take(i as int + 1).drop_last() =~= s@.take(i as int));
                if base == 10 {
                    assert(acc * 10 > u64::MAX);
                } else {
                    assert(acc * 16 > u64::MAX);
                }
                lemma_radix_val_prefix(s@, base as nat, i as int + 1);
            }
            return None;
        }
        proof {
            if base == 10 {
                assert(acc * 10 <= u64::MAX);
            } else {
                assert(acc * 16 <= u64::MAX);
            }
        }
        let shifted: u64 = acc * base;
        if d > u64::MAX - shifted {
            proof {
                assert(s@.take(i as int + 1).drop_last() =~= s@.take(i as int));
                lemma_radix_val_prefix(s@, base as nat, i as int + 1);
            }
            return None;
        }
        proof {
            assert(s@.take(i as int + 1).drop_last() =~= s@.take(i as int));
        }
        acc = shifted + d;
        i += 1;
    }
    proof {
        assert(s@.take(len as int) =~= s@);
    }
    Some(acc)
}

/// The unsigned decimal digit part of an integer token: a single
/// leading `+` is skipped, everything else is kept.
pub open spec fn strip_plus(t: Seq<char>) -> Seq<char> {
    if t.len() > 0 && t[0] == '+' {
        t.drop_first()
    } else {
        t
    }
}

/// Whether `t` is an unsigned decimal integer token (optionally
/// `+`-signed) whose value fits in a `u32`.
pub open spec fn u32_token_ok(t: Seq<char>) -> bool {
    &&& strip_plus(t).len() > 0
    &&& all_radix_digits(strip_plus(t), 10)
    &&& radix_val(strip_plus(t), 10) <= u32::MAX
}

/// Value of an unsigned decimal integer token.
pub open spec fn u32_token_val(t: Seq<char>) -> nat {
    radix_val(strip_plus(t), 10)
}

/// Parses an unsigned decimal integer token (optionally `+`-signed)
/// into a `u32`, rejecting anything else.
pub fn parse_u32_token(s: &str) -> (r: Option<u32>)
    ensures
        match r {
            Some(v) => u32_token_ok(s@) && v == u32_token_val(s@),
            None => !u32_token_ok(s@),
        },
{
    let len: usize = s.unicode_len();
    let digits: &str = if len > 0 && s.get_char(0) == '+' {
        let d = s.substring_char(1, len);
        proof {
            assert(d@ =~= strip_plus(s@));
        }
        d
    } else {
        s
    };
    match parse_radix_u64(digits, 10) {
        Some(v) => {
            if v <= 0xffff_ffff {
                Some(v as u32)
            } else {
                None
            }
        },
        None => None,
    }
}

/// The sign of a signed decimal integer token: `-1` when it starts with
/// `-`, `1` otherwise.
pub open spec fn sign_of(t: Seq<char>) -> int {
    if t.len() > 0 && t[0] == '-' {
        -1
    } else {
        1
    }
}

/// The digit part of a signed decimal integer token: a single leading
/// `+` or `-` is skipped.
pub open spec fn strip_sign(t: Seq<char>) -> Seq<char> {
    if t.len() > 0 && (t[0] == '+' || t[0] == '-') {
        t.drop_first()
    } else {
        t
    }
}

/// Whether `t` is a signed decimal integer token whose value fits in an
/// `i32`.
pub open spec fn i32_token_ok(t: Seq<char>) -> bool {
    &&& strip_sign(t).len() > 0
    &&& all_radix_digits(strip_sign(t), 10)
    &&& if sign_of(t) == -1 {
        radix_val(strip_sign(t), 10) <= 0x8000_0000
    } else {
        radix_val(strip_sign(t), 10) <= 0x7fff_ffff
    }
}

/// Value of a signed decimal integer token.
pub open spec fn i32_token_val(t: Seq<char>) -> int {
    sign_of(t) * radix_val(strip_sign(t), 10)
}

/// Parses a signed decimal integer token (optionally `+`- or
/// `-`-signed) into an `i32`, rejecting anything else.
pub fn parse_i32_token(s: &str) -> (r: Option<i32>)
    ensures
        match r {
            Some(v) => i32_token_ok(s@) && v as int == i32_token_val(s@),
            None => !i32_token_ok(s@),
        },
{
    let len: usize = s.unicode_len();
    let mut negative: bool = false;
    let digits: &str = if len > 0 && (s.get_char(0) == '+' || s.get_char(0) == '-') {
        negative = s.get_char(0) == '-';
        let d = s.substring_char(1, len);
        proof {
            assert(d@ =~= strip_sign(s@));
        }
        d
    } else {
        s
    };
    let mag: u64 = match parse_radix_u64(digits, 10) {
        Some(v) => v,
        None => {
            return None;
        },
    };
    if negative {
        if mag > 0x8000_0000 {
            None
        } else if mag == 0x8000_0000 {
            Some(i32::MIN)
        } else {
            Some(-(mag as i32))
        }
    } else {
        if mag > 0x7fff_ffff {
            None
        } else {
            Some(mag as i32)
        }
    }
}

/// One decimal digit as a character sequence.
pub open spec fn spec_digit_str(d: nat) -> Seq<char> {
    if d == 0 {
        "0"@
    } else if d == 1 {
        "1"@
    } else if d == 2 {
        "2"@
    } else if d == 3 {
        "3"@
    } else if d == 4 {
        "4"@
    } else if d == 5 {
        "5"@
    } else if d == 6 {
        "6"@
    } else if d == 7 {
        "7"@
    } else if d == 8 {
        "8"@
    } else {
        "9"@
    }
}

/// Usual decimal rendering of a natural number: no sign, no leading
/// zeros (except for zero itself).
pub open spec fn spec_dec_str(n: nat) -> Seq<char>
    decreases n,
{
    if n < 10 {
        spec_digit_str(n)
    } else {
        spec_dec_str(n / 10) + spec_digit_str(n % 10)
    }
}

/// One decimal digit as a string slice.
fn digit_str(d: u64) -> (r: &'static str)
    requires
        d < 10,
    ensures
        r@ == spec_digit_str(d as nat),
{
    match d {
        0 => "0",
        1 => "1",
        2 => "2",
        3 => "3",
        4 => "4",
        5 => "5",
        6 => "6",
        7 => "7",
        8 => "8",
        _ => "9",
    }
}

/// Renders `n` in its usual decimal form.
pub fn u64_to_dec_string(n: u64) -> (r: String)
    ensures
        r@ == spec_dec_str(n as nat),
    decreases n,
{
    if n < 10 {
        String::from_str(digit_str(n))
    } else {
        let mut prefix = u64_to_dec_string(n / 10);
        prefix.append(digit_str(n % 10));
        prefix
    }
}

/// Each digit string is one decimal digit character of the right
/// value.
proof fn lemma_digit_str_val(d: nat)
    requires
        d < 10,
    ensures
        spec_digit_str(d).len() == 1,
        is_digit(spec_digit_str(d)[0]),
        radix_digit_val(spec_digit_str(d)[0]) == d,
{
    reveal_strlit("0");
    reveal_strlit("1");
    reveal_strlit("2");
    reveal_strlit("3");
    reveal_strlit("4");
    reveal_strlit("5");
    reveal_strlit("6");
    reveal_strlit("7");
    reveal_strlit("8");
    reveal_strlit("9");
    assert("0"@.len() == 1 && "0"@[0] == '0');
    assert("1"@.len() == 1 && "1"@[0] == '1');
    assert("2"@.len() == 1 && "2"@[0] == '2');
    assert("3"@.len() == 1 && "3"@[0] == '3');
    assert("4"@.len() == 1 && "4"@[0] == '4');
    assert("5"@.len() == 1 && "5"@[0] == '5');
    assert("6"@.len() == 1 && "6"@[0] == '6');
    assert("7"@.len() == 1 && "7"@[0] == '7');
    assert("8"@.len() == 1 && "8"@[0] == '8');
    assert("9"@.len() == 1 && "9"@[0] == '9');
}

/// The decimal rendering of `n` is a non-empty digit string that
/// decodes back to `n`: rendering is faithful, and two distinct
/// numbers never share a label.
pub proof fn lemma_dec_str_val(n: nat)
    ensures
        spec_dec_str(n).len() > 0,
        all_radix_digits(spec_dec_str(n), 10),
        radix_val(spec_dec_str(n), 10) == n,
    decreases n,
{
    if n < 10 {
        lemma_digit_str_val(n);
        assert(spec_dec_str(n).drop_last() =~= Seq::<char>::empty());
        assert(radix_val(spec_dec_str(n), 10) == radix_val(Seq::<char>::empty(), 10) * 10
            + radix_digit_val(spec_dec_str(n).last()));
    } else {
        lemma_dec_str_val(n / 10);
        lemma_digit_str_val(n % 10);
        let whole = spec_dec_str(n);
        let prefix = spec_dec_str(n / 10);
        let digit = spec_digit_str(n % 10);
        assert(whole == prefix + digit);
        assert(whole.drop_last() =~= prefix);
        assert(whole.last() == digit[0]);
        assert(radix_val(whole, 10) == radix_val(prefix, 10) * 10 + radix_digit_val(whole.last()));
        assert(forall|i: int| 0 <= i < whole.len() ==> is_radix_digit(#[trigger] whole[i], 10))
            by {
            assert(forall|i: int| 0 <= i < prefix.len() ==> whole[i] == prefix[i]);
        }
    }
}

/// Two distinct numbers never render to the same decimal string.
pub proof fn lemma_dec_str_injective(a: nat, b: nat)
    requires
        spec_dec_str(a) == spec_dec_str(b),
    ensures
        a == b,
{
    lemma_dec_str_val(a);
    lemma_dec_str_val(b);
}

/// String equality, decided character by character.
pub fn str_eq(a: &str, b: &str) -> (r: bool)
    ensures
        r == (a@ == b@),
{
    let alen: usize = a.unicode_len();
    let blen: usize = b.unicode_len();
    if alen != blen {
        assert(a@ != b@) by {
            assert(a@.len() != b@.len());
        }
        return false;
    }
    let mut i: usize = 0;
    while i < alen
        invariant
            i <= alen,
            alen == a@.len(),
            alen == b@.len(),
            forall|k: int| 0 <= k < i ==> a@[k] == b@[k],
        decreases alen - i,
    {
        if a.get_char(i) != b.get_char(i) {
            return false;
        }
        i += 1;
    }
    assert(a@ =~= b@);
    true
}

} // verus!

use vstd::prelude::*;

verus! {

/// The value of a digit character: `0`-`9`, then `a`-`z` or `A`-`Z` for 10 to 35; 36 for any
/// other character, a digit in no radix.
pub open spec fn digit_value(c: char) -> nat {
    if '0' <= c && c <= '9' {
        (c as u32 - '0' as u32) as nat
    } else if 'a' <= c && c <= 'z' {
        (c as u32 - 'a' as u32 + 10) as nat
    } else if 'A' <= c && c <= 'Z' {
        (c as u32 - 'A' as u32 + 10) as nat
    } else {
        36
    }
}

/// The value of a string of digits in a radix, most significant first.
pub open spec fn digits_value(digits: Seq<char>, radix: nat) -> nat
    decreases digits.len(),
{
    if digits.len() == 0 {
        0
    } else {
        digits_value(digits.drop_last(), radix) * radix + digit_value(digits.last())
    }
}

/// Every character is a digit in the radix.
pub open spec fn all_digits(digits: Seq<char>, radix: nat) -> bool {
    forall|i: int| 0 <= i < digits.len() ==> #[trigger] digit_value(digits[i]) < radix
}

/// What `from_str_radix` gives for an unsigned type whose largest value is `max`: an optional
/// `+` sign, then at least one digit of the radix, for a value in range.
pub open spec fn parsed_unsigned(text: Seq<char>, radix: nat, max: nat) -> Option<nat> {
    let digits = if text.len() > 0 && text[0] == '+' { text.drop_first() } else { text };
    if digits.len() > 0 && all_digits(digits, radix) && digits_value(digits, radix) <= max {
        Some(digits_value(digits, radix))
    } else {
        None
    }
}

/// A count that stops growing at `cap`.
pub open spec fn capped(n: int, cap: int) -> int {
    if n < cap { n } else { cap }
}

/// Adding a digit to a capped value caps the same as adding it to the exact value: past the cap,
/// both stay past it.
pub proof fn lemma_capped_step(n: int, cap: int, radix: int, digit: int)
    requires
        n >= 0,
        cap >= 0,
        radix >= 1,
        digit >= 0,
    ensures
        capped(n * radix + digit, cap) == capped(capped(n, cap) * radix + digit, cap),
{
    if n >= cap {
        assert(n * radix >= cap * radix) by (nonlinear_arith)
            requires n >= cap, radix >= 1;
        assert(cap * radix >= cap) by (nonlinear_arith)
            requires cap >= 0, radix >= 1;
    }
}

/// The value of a digit character, as `digit_value` gives it.
fn digit_of(c: char) -> (digit: u32)
    ensures
        digit == digit_value(c),
{
    if '0' <= c && c <= '9' {
        c as u32 - '0' as u32
    } else if 'a' <= c && c <= 'z' {
        c as u32 - 'a' as u32 + 10
    } else if 'A' <= c && c <= 'Z' {
        c as u32 - 'A' as u32 + 10
    } else {
        36
    }
}

proof fn lemma_digits_value_nonnegative(digits: Seq<char>, radix: nat)
    ensures
        digits_value(digits, radix) >= 0,
{
}

/// Parses an unsigned number in a radix: an optional `+`, then at least one digit, for a value
/// no greater than `max`.
fn parse_unsigned(text: &str, radix: u32, max: u32) -> (value: Option<u32>)
    requires
        2 <= radix <= 36,
    ensures
        match value {
            Some(v) => parsed_unsigned(text@, radix as nat, max as nat) == Some(v as nat),
            None => parsed_unsigned(text@, radix as nat, max as nat) is None,
        },
{
    let len = text.unicode_len();
    let start: usize = if len > 0 && text.get_char(0) == '+' { 1 } else { 0 };
    let ghost digits = if text@.len() > 0 && text@[0] == '+' { text@.drop_first() } else { text@ };
    assert(digits =~= text@.subrange(start as int, len as int));
    if start == len {
        return None;
    }
    let cap: u64 = max as u64 + 1;
    let mut value: u64 = 0;
    let mut i: usize = start;
    assert(text@.subrange(start as int, start as int) =~= Seq::<char>::empty());
    while i < len
        invariant
            start <= i <= len,
            len == text@.len(),
            digits == text@.subrange(start as int, len as int),
            digits == if text@.len() > 0 && text@[0] == '+' { text@.drop_first() } else { text@ },
            cap == max + 1,
            2 <= radix <= 36,
            value == capped(digits_value(text@.subrange(start as int, i as int), radix as nat) as int, cap as int),
            all_digits(text@.subrange(start as int, i as int), radix as nat),
        decreases len - i,
    {
        let c = text.get_char(i);
        let digit = digit_of(c);
        if digit >= radix {
            assert(digits[i - start] == c);
            assert(digit_value(digits[i - start]) >= radix);
            return None;
        }
        let ghost prefix = text@.subrange(start as int, i as int);
        let ghost next_prefix = text@.subrange(start as int, i + 1);
        proof {
            assert(next_prefix.drop_last() =~= prefix);
            assert(next_prefix.last() == c);
            lemma_digits_value_nonnegative(prefix, radix as nat);
            lemma_capped_step(digits_value(prefix, radix as nat) as int, cap as int, radix as int, digit as int);
            assert forall|k: int| 0 <= k < next_prefix.len() implies #[trigger] digit_value(next_prefix[k]) < radix by {
                if k < prefix.len() {
                    assert(next_prefix[k] == prefix[k]);
                }
            }
        }
        assert(value <= cap);
        assert(value * radix <= 0x1_0000_0000 * 36) by (nonlinear_arith)
            requires value <= cap, cap <= 0x1_0000_0000, radix <= 36;
        let next = value * radix as u64 + digit as u64;
        value = if next > cap { cap } else { next };
        i = i + 1;
    }
    if value > max as u64 {
        None
    } else {
        Some(value as u32)
    }
}

/// Parses a hexadecimal `u32`, as `u32::from_str_radix` with radix 16 does: an optional `+`,
/// then hexadecimal digits of either case, for a value that fits.
pub(crate) fn parse_hex_u32(text: &str) -> (value: Option<u32>)
    ensures
        match value {
            Some(v) => parsed_unsigned(text@, 16, 0xFFFF_FFFF) == Some(v as nat),
            None => parsed_unsigned(text@, 16, 0xFFFF_FFFF) is None,
        },
{
    parse_unsigned(text, 16, 0xFFFF_FFFF)
}

/// Parses a decimal `u32`, as `str::parse::<u32>` does: an optional `+`, then decimal digits,
/// for a value that fits.
pub(crate) fn parse_u32(text: &str) -> (value: Option<u32>)
    ensures
        match value {
            Some(v) => parsed_unsigned(text@, 10, 0xFFFF_FFFF) == Some(v as nat),
            None => parsed_unsigned(text@, 10, 0xFFFF_FFFF) is None,
        },
{
    parse_unsigned(text, 10, 0xFFFF_FFFF)
}

/// Parses a decimal `u16`, as `str::parse::<u16>` does: an optional `+`, then decimal digits,
/// for a value that fits.
pub(crate) fn parse_u16(text: &str) -> (value: Option<u16>)
    ensures
        match value {
            Some(v) => parsed_unsigned(text@, 10, 0xFFFF) == Some(v as nat),
            None => parsed_unsigned(text@, 10, 0xFFFF) is None,
        },
{
    match parse_unsigned(text, 10, 0xFFFF) {
        Some(v) => Some(v as u16),
        None => None,
    }
}

/// Parses a decimal `u8`, as `str::parse::<u8>` does: an optional `+`, then decimal digits, for
/// a value that fits.
pub(crate) fn parse_u8(text: &str) -> (value: Option<u8>)
    ensures
        match value {
            Some(v) => parsed_unsigned(text@, 10, 0xFF) == Some(v as nat),
            None => parsed_unsigned(text@, 10, 0xFF) is None,
        },
{
    match parse_unsigned(text, 10, 0xFF) {
        Some(v) => Some(v as u8),
        None => None,
    }
}

} // verus!

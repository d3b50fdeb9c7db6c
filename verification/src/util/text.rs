use vstd::prelude::*;
use vstd::utf8::*;

verus! {

/// The message of the error that `std::str::from_utf8` reports for these bytes.
pub uninterp spec fn utf8_error_message(bytes: Seq<u8>) -> Seq<char>;

/// Decodes UTF-8 text with `std::str::from_utf8`, turning the error into its message.
/// Claimed: the text is decoded exactly when the bytes are valid UTF-8, and then holds the
/// characters they encode; otherwise the message is the one the error displays.
#[verifier::external_body]
pub(crate) fn decode_utf8_text(bytes: &[u8]) -> (result: Result<String, String>)
    ensures
        result is Ok <==> valid_utf8(bytes@),
        result matches Ok(text) ==> text@ == decode_utf8(bytes@),
        result matches Err(message) ==> message@ == utf8_error_message(bytes@),
{
    match std::str::from_utf8(bytes) {
        Ok(text) => Ok(text.to_string()),
        Err(err) => Err(err.to_string()),
    }
}

/// Collects characters into a `String` (`FromIterator<char>`); the string holds exactly them.
#[verifier::external_body]
pub(crate) fn string_from_chars(chars: &Vec<char>) -> (text: String)
    ensures
        text@ == chars@,
{
    chars.iter().collect()
}

/// The character of a decimal digit.
pub open spec fn digit_char(digit: nat) -> char {
    ((48 + digit) as u32) as char
}

/// The decimal representation of a number, without leading zeros.
pub open spec fn decimal(n: nat) -> Seq<char>
    decreases n,
{
    if n < 10 {
        seq![digit_char(n)]
    } else {
        decimal(n / 10).push(digit_char(n % 10))
    }
}

/// The error for a title whose length is neither 0, 127 nor 128 bytes, with the length in
/// decimal.
pub(crate) fn title_length_error(length: usize) -> (message: String)
    ensures
        message@ == "Title must be empty or 127 or 128 bytes, but was "@ + decimal(length as nat)
            + " bytes."@,
{
    let mut chars: Vec<char> = Vec::new();
    push_text(&mut chars, "Title must be empty or 127 or 128 bytes, but was ");
    push_decimal(&mut chars, length as u64);
    push_text(&mut chars, " bytes.");
    string_from_chars(&chars)
}

/// A title may be empty, or 127 or 128 bytes long.
pub open spec fn title_length_is_proper(length: int) -> bool {
    length == 0 || length == 127 || length == 128
}

/// `end` is where the text before the first NUL character ends: no NUL precedes it, and it is
/// either the end of the characters or the position of a NUL.
pub open spec fn is_nul_or_end(chars: Seq<char>, end: int) -> bool {
    &&& 0 <= end <= chars.len()
    &&& forall|j: int| 0 <= j < end ==> chars[j] != '\0'
    &&& end < chars.len() ==> chars[end] == '\0'
}

/// The characters before the first NUL character (all of them if there is none).
pub open spec fn text_before_nul(chars: Seq<char>) -> Seq<char> {
    chars.take(choose|end: int| is_nul_or_end(chars, end))
}

proof fn lemma_nul_or_end_unique(chars: Seq<char>, a: int, b: int)
    requires
        is_nul_or_end(chars, a),
        is_nul_or_end(chars, b),
    ensures
        a == b,
{
    if a < b {
        assert(chars[a] != '\0');
    } else if b < a {
        assert(chars[b] != '\0');
    }
}

/// Keeps the characters of `text` up to its first NUL character.
pub(crate) fn take_before_nul(text: &String) -> (result: String)
    ensures
        result@ == text_before_nul(text@),
{
    let s = text.as_str();
    let len = s.unicode_len();
    let mut chars: Vec<char> = Vec::new();
    let mut i: usize = 0;
    while i < len
        invariant
            len == s@.len(),
            s@ == text@,
            i <= len,
            chars@ == s@.take(i as int),
            forall|j: int| 0 <= j < i ==> s@[j] != '\0',
        ensures
            i <= len,
            chars@ == s@.take(i as int),
            forall|j: int| 0 <= j < i ==> s@[j] != '\0',
            i < len ==> s@[i as int] == '\0',
        decreases len - i,
    {
        let c = s.get_char(i);
        if c == '\0' {
            break;
        }
        chars.push(c);
        i = i + 1;
        assert(chars@ =~= s@.take(i as int));
    }
    proof {
        assert(is_nul_or_end(text@, i as int));
        let end = choose|end: int| is_nul_or_end(text@, end);
        lemma_nul_or_end_unique(text@, i as int, end);
    }
    string_from_chars(&chars)
}


/// Finds where the text before the first NUL ends, searching from `start` on.
proof fn nul_or_end_from(chars: Seq<char>, start: int) -> (end: int)
    requires
        0 <= start <= chars.len(),
        forall|j: int| 0 <= j < start ==> chars[j] != '\0',
    ensures
        is_nul_or_end(chars, end),
    decreases chars.len() - start,
{
    if start == chars.len() || chars[start] == '\0' {
        start
    } else {
        nul_or_end_from(chars, start + 1)
    }
}

/// The text before the first NUL holds no NUL, and it begins the characters.
pub proof fn lemma_text_before_nul(chars: Seq<char>)
    ensures
        forall|i: int| 0 <= i < text_before_nul(chars).len() ==> #[trigger] text_before_nul(chars)[i] != '\0',
        text_before_nul(chars) == chars.take(text_before_nul(chars).len() as int),
{
    let end = nul_or_end_from(chars, 0);
    assert(is_nul_or_end(chars, end));
    let chosen = choose|e: int| is_nul_or_end(chars, e);
    lemma_nul_or_end_unique(chars, end, chosen);
}

/// The character of a hexadecimal digit, in uppercase.
pub open spec fn hex_digit_char(digit: nat) -> char {
    if digit < 10 {
        ((48 + digit) as u32) as char
    } else {
        ((55 + digit) as u32) as char
    }
}

/// The lowest `width` hexadecimal digits of a number, most significant first, zeros included.
pub open spec fn hex_digits(n: nat, width: nat) -> Seq<char>
    decreases width,
{
    if width == 0 {
        seq![]
    } else {
        hex_digits(n / 16, (width - 1) as nat).push(hex_digit_char(n % 16))
    }
}

/// The text right-aligned in a field of `width` characters: spaces before it make up the width.
pub open spec fn padded_left(text: Seq<char>, width: nat) -> Seq<char> {
    if text.len() < width {
        Seq::new((width - text.len()) as nat, |i: int| ' ') + text
    } else {
        text
    }
}

/// Appends the characters of a text.
pub(crate) fn push_text(out: &mut Vec<char>, text: &str)
    ensures
        final(out)@ == old(out)@ + text@,
{
    let len = text.unicode_len();
    let mut i: usize = 0;
    while i < len
        invariant
            len == text@.len(),
            i <= len,
            out@ == old(out)@ + text@.take(i as int),
        decreases len - i,
    {
        out.push(text.get_char(i));
        i = i + 1;
        assert(out@ =~= old(out)@ + text@.take(i as int));
    }
    assert(text@.take(len as int) =~= text@);
}

/// Appends a number in decimal.
pub(crate) fn push_decimal(out: &mut Vec<char>, n: u64)
    ensures
        final(out)@ == old(out)@ + decimal(n as nat),
    decreases n,
{
    if n >= 10 {
        push_decimal(out, n / 10);
    }
    let digit = (n % 10) as u8;
    out.push((48 + digit) as char);
    assert(out@ =~= old(out)@ + decimal(n as nat));
}

/// Appends the lowest `width` hexadecimal digits of a number.
pub(crate) fn push_hex_digits(out: &mut Vec<char>, n: u32, width: usize)
    ensures
        final(out)@ == old(out)@ + hex_digits(n as nat, width as nat),
    decreases width,
{
    if width > 0 {
        push_hex_digits(out, n / 16, width - 1);
        let digit = (n % 16) as u8;
        if digit < 10 {
            out.push((48 + digit) as char);
        } else {
            out.push((55 + digit) as char);
        }
        assert(out@ =~= old(out)@ + hex_digits(n as nat, width as nat));
    }
}

/// Appends a number in decimal, right-aligned in a field of `width` characters.
pub(crate) fn push_padded_decimal(out: &mut Vec<char>, n: u32, width: usize)
    ensures
        final(out)@ == old(out)@ + padded_left(decimal(n as nat), width as nat),
{
    let mut digits: Vec<char> = Vec::new();
    push_decimal(&mut digits, n as u64);
    assert(digits@ =~= decimal(n as nat));
    let mut k: usize = digits.len();
    while k < width
        invariant
            digits@ == decimal(n as nat),
            digits@.len() <= k,
            k <= width || k == digits@.len(),
            out@ == old(out)@ + Seq::new((k - digits@.len()) as nat, |i: int| ' '),
        decreases width - k,
    {
        out.push(' ');
        k = k + 1;
        assert(out@ =~= old(out)@ + Seq::new((k - digits@.len()) as nat, |i: int| ' '));
    }
    let mut j: usize = 0;
    let ghost spaces = out@;
    while j < digits.len()
        invariant
            j <= digits@.len(),
            out@ == spaces + digits@.take(j as int),
        decreases digits@.len() - j,
    {
        out.push(digits[j]);
        j = j + 1;
        assert(out@ =~= spaces + digits@.take(j as int));
    }
    assert(digits@.take(j as int) =~= digits@);
    assert(out@ =~= old(out)@ + padded_left(decimal(n as nat), width as nat));
}

/// Whether two texts hold the same characters.
pub(crate) fn same_text(a: &str, b: &str) -> (same: bool)
    ensures
        same == (a@ == b@),
{
    let len = a.unicode_len();
    if len != b.unicode_len() {
        return false;
    }
    let mut i: usize = 0;
    while i < len
        invariant
            len == a@.len(),
            len == b@.len(),
            i <= len,
            forall|j: int| 0 <= j < i ==> a@[j] == b@[j],
        decreases len - i,
    {
        if a.get_char(i) != b.get_char(i) {
            return false;
        }
        i = i + 1;
    }
    assert(a@ =~= b@);
    true
}

} // verus!

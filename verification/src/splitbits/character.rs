use vstd::prelude::*;

use crate::util::text::{push_text, string_from_chars};

verus! {

/// The name of a field in a template: a lowercase ASCII letter.
#[derive(PartialEq, Eq, Clone, Copy, Debug, Structural)]
pub struct Name(char);

/// A character names a field when it is a lowercase ASCII letter.
pub open spec fn is_name_char(c: char) -> bool {
    'a' <= c && c <= 'z'
}

/// The error for a character that cannot name a field, with the character between quotes.
fn invalid_name_error(raw_name: char) -> (message: String)
    ensures
        message@ == seq!['\''] + seq![raw_name] + "' is not a valid Name."@,
{
    let mut chars: Vec<char> = Vec::new();
    chars.push('\'');
    chars.push(raw_name);
    push_text(&mut chars, "' is not a valid Name.");
    assert(chars@ =~= seq!['\''] + seq![raw_name] + "' is not a valid Name."@);
    string_from_chars(&chars)
}

impl View for Name {
    type V = char;

    closed spec fn view(&self) -> char {
        self.0
    }
}

/// The name that a character stands for.
pub closed spec fn spec_name(c: char) -> Name {
    Name(c)
}

/// The name that a character stands for holds that character.
pub broadcast proof fn lemma_spec_name_view(c: char)
    ensures
        #[trigger] spec_name(c)@ == c,
{
}

/// Two names that hold the same character are the same name.
pub proof fn lemma_same_view_same_name(a: Name, b: Name)
    ensures
        a@ == b@ ==> a == b,
{
}

impl Name {
    /// A name holds a lowercase ASCII letter.
    #[verifier::type_invariant]
    spec fn holds_letter(self) -> bool {
        is_name_char(self.0)
    }

    /// A name made of a lowercase ASCII letter; any other character is refused.
    pub fn new(raw_name: char) -> (result: Result<Self, String>)
        ensures
            result is Ok <==> is_name_char(raw_name),
            result matches Ok(name) ==> name@ == raw_name,
            result matches Err(message) ==> message@ == seq!['\''] + seq![raw_name] + "' is not a valid Name."@,
    {
        if 'a' <= raw_name && raw_name <= 'z' {
            Ok(Name(raw_name))
        } else {
            Err(invalid_name_error(raw_name))
        }
    }

    /// The name of a character known to be a name.
    pub(crate) fn named(c: char) -> (name: Name)
        requires is_name_char(c),
        ensures name@ == c,
    {
        Name(c)
    }

    /// The letter of the name; it is always a lowercase ASCII letter.
    pub fn to_char(self) -> (c: char)
        ensures
            c == self@,
            is_name_char(c),
            spec_name(c) == self,
    {
        proof { use_type_invariant(&self); }
        self.0
    }
}

/// A character of a template: a field name, a placeholder (`.`) or a literal bit.
#[derive(PartialEq, Eq, Clone, Copy, Debug, Structural)]
pub enum Character {
    Name(Name),
    Placeholder,
    Zero,
    One,
}

/// The character of the template text that a template character came from.
pub open spec fn character_char(character: Character) -> char {
    match character {
        Character::Name(name) => name@,
        Character::Placeholder => '.',
        Character::Zero => '0',
        Character::One => '1',
    }
}

/// The template character of a valid template text character.
pub open spec fn spec_character(c: char) -> Character {
    if c == '.' {
        Character::Placeholder
    } else if c == '0' {
        Character::Zero
    } else if c == '1' {
        Character::One
    } else {
        Character::Name(spec_name(c))
    }
}

/// Whether a template text character is valid: a placeholder, a literal bit, or a name.
pub open spec fn is_template_char(c: char) -> bool {
    c == '.' || c == '0' || c == '1' || is_name_char(c)
}

/// The value of a sequence of bits, the most significant first.
pub open spec fn binary_value(bits: Seq<bool>) -> int
    decreases bits.len(),
{
    if bits.len() == 0 {
        0
    } else {
        binary_value(bits.drop_last()) * 2 + if bits.last() { 1int } else { 0int }
    }
}

/// A longer prefix never has a smaller value.
pub proof fn lemma_binary_value_prefix(bits: Seq<bool>, i: int)
    requires
        0 <= i <= bits.len(),
    ensures
        0 <= binary_value(bits.take(i)) <= binary_value(bits),
    decreases bits.len(),
{
    if bits.len() > 0 {
        lemma_binary_value_prefix(bits.drop_last(), if i < bits.len() { i } else { bits.len() - 1 });
        assert(bits.drop_last().take(if i < bits.len() { i } else { bits.len() - 1 }) =~= if i < bits.len() {
            bits.take(i)
        } else {
            bits.drop_last()
        });
        if i == bits.len() {
            assert(bits.take(i) =~= bits);
        }
    }
}

/// The bits of the literal that a template's literal characters spell, a one for each `1` and a
/// zero for every other character.
pub open spec fn literal_bits(characters: Seq<Character>) -> Seq<bool> {
    characters.map_values(|c: Character| c == Character::One)
}

/// The literal of a template: none if it has no literal bit.
pub open spec fn spec_literal(characters: Seq<Character>) -> Option<u128> {
    if exists|i: int| 0 <= i < characters.len() && (characters[i] == Character::Zero || characters[i] == Character::One) {
        Some(binary_value(literal_bits(characters)) as u128)
    } else {
        None
    }
}

impl Character {
    /// The template character of a text character; an invalid character is refused as a name.
    pub fn from_char(c: char) -> (result: Result<Self, String>)
        ensures
            result is Ok <==> is_template_char(c),
            result matches Ok(character) ==> character == spec_character(c),
            result matches Err(message) ==> message@ == seq!['\''] + seq![c] + "' is not a valid Name."@,
    {
        if c == '.' {
            Ok(Character::Placeholder)
        } else if c == '0' {
            Ok(Character::Zero)
        } else if c == '1' {
            Ok(Character::One)
        } else {
            match Name::new(c) {
                Ok(name) => Ok(Character::Name(name)),
                Err(message) => Err(message),
            }
        }
    }

    pub fn is_literal(self) -> (literal: bool)
        ensures literal == (self == Character::Zero || self == Character::One),
    {
        self == Character::Zero || self == Character::One
    }

    pub fn to_name(self) -> (name: Option<Name>)
        ensures
            name == match self {
                Character::Name(name) => Some(name),
                _ => None,
            },
    {
        if let Character::Name(name) = self {
            Some(name)
        } else {
            None
        }
    }

    /// The text character of the template character; making a template character of it gives
    /// the same template character back.
    pub fn to_char(self) -> (c: char)
        ensures
            c == character_char(self),
            is_template_char(c),
            spec_character(c) == self,
    {
        match self {
            Character::Name(name) => name.to_char(),
            Character::Placeholder => '.',
            Character::Zero => '0',
            Character::One => '1',
        }
    }

    /// The literal that the characters spell (ones where there is a `1`, zeros elsewhere), or
    /// none if no character is a literal bit. The value must fit in 128 bits.
    pub fn characters_to_literal(chars: &[Character]) -> (literal: Option<u128>)
        requires
            binary_value(literal_bits(chars@)) <= u128::MAX,
        ensures
            literal == spec_literal(chars@),
    {
        let mut any_literal = false;
        let mut i: usize = 0;
        while i < chars.len()
            invariant
                i <= chars@.len(),
                any_literal <==> exists|j: int| 0 <= j < i && (chars@[j] == Character::Zero || chars@[j] == Character::One),
            decreases chars@.len() - i,
        {
            if chars[i].is_literal() {
                any_literal = true;
            }
            i = i + 1;
        }
        if !any_literal {
            return None;
        }

        let mut value: u128 = 0;
        let mut k: usize = 0;
        while k < chars.len()
            invariant
                k <= chars@.len(),
                binary_value(literal_bits(chars@)) <= u128::MAX,
                value == binary_value(literal_bits(chars@).take(k as int)),
            decreases chars@.len() - k,
        {
            proof {
                lemma_binary_value_prefix(literal_bits(chars@), k + 1);
                assert(literal_bits(chars@).take(k + 1).drop_last() =~= literal_bits(chars@).take(k as int));
            }
            let bit: u128 = if chars[k] == Character::One { 1 } else { 0 };
            value = value * 2 + bit;
            k = k + 1;
        }
        assert(literal_bits(chars@).take(k as int) =~= literal_bits(chars@));
        Some(value)
    }
}

} // verus!

use itertools::Itertools;
use vstd::prelude::*;

use crate::splitbits::character::{
    lemma_spec_name_view, is_name_char, spec_name,
    binary_value, character_char, is_template_char, lemma_binary_value_prefix, literal_bits, spec_character,
    spec_literal, Character, Name,
};
use crate::splitbits::field::{find_last_entry, last_entry, FieldEntry};
use crate::splitbits::location::Location;
use vstd::arithmetic::power2::{
    lemma2_to64, lemma_pow2_adds, lemma_pow2_strictly_increases, lemma_pow2_unfold, pow2,
};

verus! {

/// The characters that `Itertools::unique` keeps: each first occurrence, in order.
pub open spec fn first_occurrences(s: Seq<char>) -> Seq<char>
    decreases s.len(),
{
    if s.len() == 0 {
        seq![]
    } else {
        let previous = first_occurrences(s.drop_last());
        if previous.contains(s.last()) {
            previous
        } else {
            previous.push(s.last())
        }
    }
}

/// Calls `Itertools::unique` on the characters. Claimed, as its documentation says: the first
/// occurrence of each character is kept, in order.
#[verifier::external_body]
fn unique_chars(chars: &Vec<char>) -> (unique: Vec<char>)
    ensures
        unique@ == first_occurrences(chars@),
{
    chars.iter().copied().unique().collect()
}

/// The maximal runs of equal consecutive characters, in order, each as its character, the
/// position of its first character and its length.
pub open spec fn spec_runs(s: Seq<char>) -> Seq<(char, usize, usize)>
    decreases s.len(),
{
    if s.len() == 0 {
        seq![]
    } else {
        let previous = spec_runs(s.drop_last());
        let c = s.last();
        if previous.len() > 0 && previous.last().0 == c {
            previous.update(previous.len() - 1, (c, previous.last().1, (previous.last().2 + 1) as usize))
        } else {
            previous.push((c, (s.len() - 1) as usize, 1usize))
        }
    }
}

/// Calls `Itertools::chunk_by` on the characters with their positions, keyed by the character,
/// and records each chunk as its key, first position and length. Claimed, as its documentation
/// says: the chunks are the runs of consecutive equal characters, in order.
#[verifier::external_body]
fn char_runs(chars: &Vec<char>) -> (runs: Vec<(char, usize, usize)>)
    ensures
        runs@ == spec_runs(chars@),
{
    let mut runs = Vec::new();
    for (key, run) in &chars.iter().enumerate().chunk_by(|(_, c)| **c) {
        let positions: Vec<usize> = run.map(|(position, _)| position).collect();
        runs.push((key, positions[0], positions.len()));
    }
    runs
}

/// The sum of the runs' lengths.
pub open spec fn runs_length(runs: Seq<(char, usize, usize)>) -> nat
    decreases runs.len(),
{
    if runs.len() == 0 {
        0
    } else {
        (runs_length(runs.drop_last()) + runs.last().2) as nat
    }
}

/// The runs cover the characters: each is nonempty and lies within them, the last ends where
/// they end, and the lengths add up to theirs.
pub proof fn lemma_runs_partition(s: Seq<char>)
    requires
        s.len() <= usize::MAX,
    ensures
        forall|k: int| 0 <= k < spec_runs(s).len() ==> (#[trigger] spec_runs(s)[k]).2 >= 1
            && spec_runs(s)[k].1 + spec_runs(s)[k].2 <= s.len(),
        spec_runs(s).len() > 0 ==> spec_runs(s).last().1 + spec_runs(s).last().2 == s.len(),
        spec_runs(s).len() == 0 <==> s.len() == 0,
        runs_length(spec_runs(s)) == s.len(),
    decreases s.len(),
{
    if s.len() > 0 {
        let previous = spec_runs(s.drop_last());
        lemma_runs_partition(s.drop_last());
        let c = s.last();
        let runs = spec_runs(s);
        if previous.len() > 0 && previous.last().0 == c {
            let last = previous.len() - 1;
            assert(runs[last] == (c, previous[last].1, (previous[last].2 + 1) as usize));
            assert forall|k: int| 0 <= k < runs.len() implies (#[trigger] runs[k]).2 >= 1
                && runs[k].1 + runs[k].2 <= s.len() by {
                if k < last {
                    assert(runs[k] == previous[k]);
                }
            }
            assert(runs.drop_last() =~= previous.drop_last());
            assert(runs_length(previous) == runs_length(previous.drop_last()) + previous.last().2);
        } else {
            assert(runs.drop_last() =~= previous);
            assert forall|k: int| 0 <= k < runs.len() implies (#[trigger] runs[k]).2 >= 1
                && runs[k].1 + runs[k].2 <= s.len() by {
                if k < previous.len() {
                    assert(runs[k] == previous[k]);
                }
            }
        }
    }
}

/// The locations of a name's runs, in order: each run of the name's character as its length
/// and first position.
pub open spec fn locations_of(runs: Seq<(char, usize, usize)>, c: char) -> Seq<Location>
    decreases runs.len(),
{
    if runs.len() == 0 {
        seq![]
    } else {
        let previous = locations_of(runs.drop_last(), c);
        let run = runs.last();
        if run.0 == c {
            previous.push(Location { len: run.2 as u8, mask_offset: run.1 as u8 })
        } else {
            previous
        }
    }
}

/// The sum of the locations' lengths.
pub open spec fn locations_length(locations: Seq<Location>) -> nat
    decreases locations.len(),
{
    if locations.len() == 0 {
        0
    } else {
        (locations_length(locations.drop_last()) + locations.last().len) as nat
    }
}

/// A name's locations are runs, and together they are no longer than all the runs.
pub proof fn lemma_locations_of_runs(runs: Seq<(char, usize, usize)>, c: char)
    requires
        forall|k: int| 0 <= k < runs.len() ==> (#[trigger] runs[k]).2 < 256 && runs[k].1 < 256,
    ensures
        forall|i: int| 0 <= i < locations_of(runs, c).len() ==> exists|k: int| 0 <= k < runs.len()
            && (#[trigger] locations_of(runs, c)[i]).len == runs[k].2 && locations_of(runs, c)[i].mask_offset == runs[k].1,
        locations_length(locations_of(runs, c)) <= runs_length(runs),
    decreases runs.len(),
{
    if runs.len() > 0 {
        lemma_locations_of_runs(runs.drop_last(), c);
        let previous = locations_of(runs.drop_last(), c);
        let locations = locations_of(runs, c);
        assert forall|i: int| 0 <= i < locations.len() implies exists|k: int| 0 <= k < runs.len()
            && (#[trigger] locations[i]).len == runs[k].2 && locations[i].mask_offset == runs[k].1 by {
            if i < previous.len() {
                let k = choose|k: int| 0 <= k < runs.drop_last().len() && previous[i].len == runs.drop_last()[k].2
                    && previous[i].mask_offset == runs.drop_last()[k].1;
                assert(runs[k] == runs.drop_last()[k]);
            } else {
                assert(locations[i].len == runs[runs.len() - 1].2);
            }
        }
        if runs.last().0 == c {
            assert(locations.drop_last() =~= previous);
        }
    }
}

/// How many times a character occurs.
pub open spec fn count_char(s: Seq<char>, c: char) -> nat
    decreases s.len(),
{
    if s.len() == 0 {
        0
    } else {
        (count_char(s.drop_last(), c) + if s.last() == c { 1int } else { 0int }) as nat
    }
}

/// The run at `k` ends where the next begins, and the next holds another character.
pub open spec fn runs_meet(runs: Seq<(char, usize, usize)>, k: int) -> bool {
    runs[k].1 + runs[k].2 == runs[k + 1].1 && runs[k].0 != runs[k + 1].0
}

/// Runs as `spec_runs` makes them of a text shorter than 256: each nonempty and ending before
/// 256, each meeting the next, which holds another character.
pub open spec fn are_runs(runs: Seq<(char, usize, usize)>) -> bool {
    &&& forall|k: int| 0 <= k < runs.len() ==> (#[trigger] runs[k]).2 >= 1 && runs[k].1 + runs[k].2 < 256
    &&& forall|k: int| 0 <= k < runs.len() - 1 ==> #[trigger] runs_meet(runs, k)
}

/// The location at `i` ends before the next begins, with at least one bit between them.
pub open spec fn locations_apart(locations: Seq<Location>, i: int) -> bool {
    locations[i].mask_offset + locations[i].len < locations[i + 1].mask_offset
}

/// Each location is nonempty and lies before the next, with a gap between them.
pub open spec fn are_separated(locations: Seq<Location>) -> bool {
    &&& forall|i: int| 0 <= i < locations.len() ==> (#[trigger] locations[i]).len >= 1
    &&& forall|i: int| 0 <= i < locations.len() - 1 ==> #[trigger] locations_apart(locations, i)
}

/// Consecutive runs meet and hold different characters, and the first starts at the beginning.
pub proof fn lemma_runs_adjacent(s: Seq<char>)
    requires
        s.len() <= usize::MAX,
    ensures
        spec_runs(s).len() > 0 ==> spec_runs(s)[0].1 == 0,
        forall|k: int| 0 <= k < spec_runs(s).len() - 1 ==> #[trigger] runs_meet(spec_runs(s), k),
    decreases s.len(),
{
    if s.len() > 0 {
        let previous = spec_runs(s.drop_last());
        lemma_runs_adjacent(s.drop_last());
        lemma_runs_partition(s.drop_last());
        let c = s.last();
        let runs = spec_runs(s);
        if previous.len() > 0 && previous.last().0 == c {
            let last = previous.len() - 1;
            assert forall|k: int| 0 <= k < runs.len() - 1 implies #[trigger] runs_meet(runs, k) by {
                assert(runs_meet(previous, k));
                assert(runs[k] == previous[k]);
                if k + 1 < last {
                    assert(runs[k + 1] == previous[k + 1]);
                }
            }
        } else {
            assert forall|k: int| 0 <= k < runs.len() - 1 implies #[trigger] runs_meet(runs, k) by {
                assert(runs[k] == previous[k]);
                if k + 1 < previous.len() {
                    assert(runs_meet(previous, k));
                    assert(runs[k + 1] == previous[k + 1]);
                }
            }
        }
    }
}

/// The runs of a text shorter than 256 are runs in the sense of `are_runs`.
pub proof fn lemma_spec_runs_are_runs(s: Seq<char>)
    requires
        s.len() < 256,
    ensures
        are_runs(spec_runs(s)),
{
    lemma_runs_partition(s);
    lemma_runs_adjacent(s);
}

/// A character's locations among runs are separated; the last ends no later than the last run,
/// and, where the last run holds another character, no later than that run begins.
pub proof fn lemma_locations_of_separated(runs: Seq<(char, usize, usize)>, c: char)
    requires
        are_runs(runs),
    ensures
        are_separated(locations_of(runs, c)),
        locations_of(runs, c).len() > 0 ==> locations_of(runs, c).last().mask_offset
            + locations_of(runs, c).last().len <= runs.last().1 + runs.last().2,
        locations_of(runs, c).len() > 0 && runs.last().0 != c ==> locations_of(runs, c).last().mask_offset
            + locations_of(runs, c).last().len <= runs.last().1,
    decreases runs.len(),
{
    if runs.len() > 0 {
        let previous_runs = runs.drop_last();
        assert forall|k: int| 0 <= k < previous_runs.len() - 1 implies #[trigger] runs_meet(previous_runs, k) by {
            assert(runs_meet(runs, k));
        }
        assert forall|k: int| 0 <= k < previous_runs.len() implies (#[trigger] previous_runs[k]).2 >= 1
            && previous_runs[k].1 + previous_runs[k].2 < 256 by {
            assert(previous_runs[k] == runs[k]);
        }
        lemma_locations_of_separated(previous_runs, c);
        let previous = locations_of(previous_runs, c);
        let locations = locations_of(runs, c);
        let run = runs.last();
        assert(run == runs[runs.len() - 1]);
        if previous.len() > 0 {
            assert(runs_meet(runs, runs.len() - 2));
            assert(previous_runs.last() == runs[runs.len() - 2]);
        }
        if run.0 == c {
            assert forall|i: int| 0 <= i < locations.len() implies (#[trigger] locations[i]).len >= 1 by {
                if i < previous.len() {
                    assert(locations[i] == previous[i]);
                }
            }
            assert forall|i: int| 0 <= i < locations.len() - 1 implies #[trigger] locations_apart(locations, i) by {
                assert(locations[i] == previous[i]);
                if i < previous.len() - 1 {
                    assert(locations_apart(previous, i));
                    assert(locations[i + 1] == previous[i + 1]);
                }
            }
        } else {
            assert(locations == previous);
        }
    }
}

/// The lengths of a character's locations among the runs of a text shorter than 256 add up to
/// the number of times it occurs in the text.
pub proof fn lemma_locations_length_counts(s: Seq<char>, c: char)
    requires
        s.len() < 256,
    ensures
        locations_length(locations_of(spec_runs(s), c)) == count_char(s, c),
    decreases s.len(),
{
    if s.len() > 0 {
        lemma_locations_length_counts(s.drop_last(), c);
        lemma_runs_partition(s.drop_last());
        lemma_runs_partition(s);
        let previous = spec_runs(s.drop_last());
        let runs = spec_runs(s);
        let x = s.last();
        if previous.len() > 0 && previous.last().0 == x {
            assert(runs.drop_last() =~= previous.drop_last());
            let before = locations_of(previous.drop_last(), c);
            if x == c {
                assert(locations_of(previous, c) == before.push(Location {
                    len: previous.last().2 as u8, mask_offset: previous.last().1 as u8,
                }));
                assert(locations_of(runs, c) == before.push(Location {
                    len: (previous.last().2 + 1) as u8, mask_offset: previous.last().1 as u8,
                }));
                assert(locations_of(runs, c).drop_last() =~= before);
                assert(locations_of(previous, c).drop_last() =~= before);
            } else {
                assert(locations_of(runs, c) == before);
                assert(locations_of(previous, c) == before);
            }
        } else {
            assert(runs.drop_last() =~= previous);
            if x == c {
                assert(locations_of(runs, c).drop_last() =~= locations_of(previous, c));
            }
        }
    }
}

/// Law of the template: for each field, its locations (least significant first) are nonempty,
/// separated by at least one bit, end within the template's bits, and their lengths add up to
/// the number of the template's bits that the field's name stands for.
pub proof fn lemma_template_field_locations(template: Seq<char>, base: Base, i: int)
    requires
        is_splittable_template(template, base),
        0 <= i < spec_template(template, base).locations_by_name.len(),
    ensures
        ({
            let view = spec_template(template, base);
            let (name, locations) = view.locations_by_name[i];
            let bits = reversed_text(view.characters);
            &&& are_separated(locations)
            &&& locations.len() > 0 ==> locations.last().mask_offset + locations.last().len <= bits.len()
            &&& locations_length(locations) == count_char(bits, name)
        }),
{
    let characters = template_characters(template);
    let bits = expanded(characters, base.spec_bits_per_digit());
    let text = reversed_text(bits);
    let runs = spec_runs(text);
    assert(text.len() <= 128);
    lemma_names_with_locations(first_names(template), runs);
    let c = first_names(template)[i];
    lemma_spec_runs_are_runs(text);
    lemma_runs_partition(text);
    lemma_locations_of_separated(runs, c);
    lemma_locations_length_counts(text, c);
}

/// Counting over two texts put together adds their counts.
pub proof fn lemma_count_char_add(s: Seq<char>, t: Seq<char>, c: char)
    ensures
        count_char(s + t, c) == count_char(s, c) + count_char(t, c),
    decreases t.len(),
{
    if t.len() > 0 {
        lemma_count_char_add(s, t.drop_last(), c);
        assert((s + t).drop_last() =~= s + t.drop_last());
    }
}

/// A character repeated `k` times is counted `k` times, and no other character is counted.
proof fn lemma_count_char_repeated(x: char, k: nat, c: char)
    ensures
        count_char(Seq::new(k, |i: int| x), c) == if x == c { k } else { 0 },
    decreases k,
{
    if k > 0 {
        lemma_count_char_repeated(x, (k - 1) as nat, c);
        assert(Seq::new(k, |i: int| x).drop_last() =~= Seq::new((k - 1) as nat, |i: int| x));
    }
}

/// The position in the characters of a bit of their expansion: the bits below `l * k` belong to
/// the first `l` characters, and the `k` bits from `l * k` on to the character at `l`.
proof fn lemma_expanded_position(index: int, l: int, k: int)
    requires
        k > 0,
        l >= 0,
        0 <= index < (l + 1) * k,
    ensures
        index < l * k ==> 0 <= index / k < l,
        index >= l * k ==> index / k == l,
{
    vstd::arithmetic::div_mod::lemma_fundamental_div_mod(index, k);
    let q = index / k;
    let r = index % k;
    assert(0 <= r < k);
    assert(index == k * q + r);
    assert(index < l * k ==> 0 <= q < l) by (nonlinear_arith)
        requires index == k * q + r, 0 <= r < k, 0 <= index, k > 0;
    assert(index >= l * k ==> q == l) by (nonlinear_arith)
        requires index == k * q + r, 0 <= r < k, index < (l + 1) * k, k > 0;
}

/// A field name occurs in a template's bits, the least significant first, as many times as the
/// template's characters name it, times the bits that each character stands for.
pub proof fn lemma_name_bits_count(characters: Seq<Character>, k: nat, c: char)
    requires
        k > 0,
        is_name_char(c),
    ensures
        count_char(reversed_text(expanded(characters, k)), c) == k * count_char(name_chars(characters), c),
    decreases characters.len(),
{
    if characters.len() > 0 {
        let previous = characters.drop_last();
        let character = characters.last();
        let l = previous.len() as int;
        let kk = k as int;
        lemma_name_bits_count(previous, k, c);
        let x = character_char(character);
        let repeated = Seq::new(k, |i: int| x);
        let text = reversed_text(expanded(characters, k));
        let rest = reversed_text(expanded(previous, k));
        assert((l + 1) * kk == l * kk + kk) by (nonlinear_arith);
        assert forall|i: int| 0 <= i < text.len() implies text[i] == (repeated + rest)[i] by {
            let index = (l + 1) * kk - 1 - i;
            lemma_expanded_position(index, l, kk);
            if i < kk {
                assert(characters[index / kk] == character);
            } else {
                assert(characters[index / kk] == previous[index / kk]);
                assert(rest[i - kk] == character_char(previous[index / kk]));
            }
        }
        assert(text =~= repeated + rest);
        lemma_count_char_add(repeated, rest, c);
        lemma_count_char_repeated(x, k, c);
        let count = count_char(name_chars(previous), c);
        assert(count_char(text, c) == (if x == c { kk } else { 0int }) + kk * count);
        match character {
            Character::Name(name) => {
                assert(name_chars(characters) == name_chars(previous).push(name@));
                assert(name_chars(characters).drop_last() =~= name_chars(previous));
                assert(count_char(name_chars(characters), c) == count + if name@ == c { 1int } else { 0int });
                assert(kk * (count + if name@ == c { 1int } else { 0int })
                    == kk * count + if name@ == c { kk } else { 0int }) by (nonlinear_arith);
            },
            _ => {
                assert(name_chars(characters) == name_chars(previous));
                assert(x != c);
            },
        }
    } else {
        assert(characters.len() * k == 0) by (nonlinear_arith)
            requires characters.len() == 0;
        assert(expanded(characters, k).len() == 0);
        assert(reversed_text(expanded(characters, k)).len() == 0);
        let count = count_char(name_chars(characters), c);
        assert(count == 0);
        assert(k * count == 0) by (nonlinear_arith)
            requires count == 0;
    }
}

/// Law of the template: the lengths of a field's locations add up to the number of times the
/// template names the field, spaces aside, times the bits per digit of its base.
pub proof fn lemma_field_length_counts_names(template: Seq<char>, base: Base, i: int)
    requires
        is_splittable_template(template, base),
        0 <= i < spec_template(template, base).locations_by_name.len(),
    ensures
        ({
            let (name, locations) = spec_template(template, base).locations_by_name[i];
            locations_length(locations)
                == base.spec_bits_per_digit() * count_char(name_chars(template_characters(template)), name)
        }),
{
    let characters = template_characters(template);
    let k = base.spec_bits_per_digit();
    lemma_template_field_locations(template, base, i);
    lemma_names_with_locations(first_names(template), template_runs(template, base));
    let c = first_names(template)[i];
    lemma_template_names_are_letters(template);
    lemma_first_occurrences_letters(name_chars(characters));
    lemma_name_bits_count(characters, k, c);
}

/// The template text without its spaces, which are only for readability.
pub open spec fn without_spaces(text: Seq<char>) -> Seq<char>
    decreases text.len(),
{
    if text.len() == 0 {
        seq![]
    } else {
        let previous = without_spaces(text.drop_last());
        if text.last() == ' ' {
            previous
        } else {
            previous.push(text.last())
        }
    }
}

/// Removing spaces keeps every other character that the text holds.
pub proof fn lemma_without_spaces_contains(text: Seq<char>, c: char)
    requires
        c != ' ',
    ensures
        without_spaces(text).contains(c) <==> text.contains(c),
    decreases text.len(),
{
    if text.len() > 0 {
        let previous = text.drop_last();
        lemma_without_spaces_contains(previous, c);
        if text.contains(c) && !previous.contains(c) {
            let i = choose|i: int| 0 <= i < text.len() && text[i] == c;
            if i < text.len() - 1 {
                assert(previous[i] == c);
            }
            assert(without_spaces(text).last() == c);
        }
        if previous.contains(c) {
            let i = choose|i: int| 0 <= i < previous.len() && previous[i] == c;
            assert(text[i] == c);
        }
        if without_spaces(text).contains(c) && !without_spaces(previous).contains(c) {
            assert(text.last() == c);
        }
        if without_spaces(previous).contains(c) {
            let i = choose|i: int| 0 <= i < without_spaces(previous).len() && without_spaces(previous)[i] == c;
            if text.last() != ' ' {
                assert(without_spaces(text)[i] == c);
            }
        }
    }
}

/// Law of the template: it has placeholders exactly when its text holds a '.'.
pub proof fn lemma_has_placeholders_iff_dot(text: Seq<char>, base: Base)
    ensures
        spec_template(text, base).has_placeholders <==> text.contains('.'),
{
    let w = without_spaces(text);
    let characters = template_characters(text);
    lemma_without_spaces_contains(text, '.');
    if characters.contains(Character::Placeholder) {
        let i = choose|i: int| 0 <= i < characters.len() && characters[i] == Character::Placeholder;
        assert(spec_character(w[i]) == Character::Placeholder);
        assert(w[i] == '.');
    }
    if w.contains('.') {
        let i = choose|i: int| 0 <= i < w.len() && w[i] == '.';
        assert(characters[i] == Character::Placeholder);
    }
}

/// Every character of the template, spaces aside, is a placeholder, a literal bit or a name.
pub open spec fn is_valid_template(text: Seq<char>) -> bool {
    forall|i: int| 0 <= i < without_spaces(text).len() ==> is_template_char(#[trigger] without_spaces(text)[i])
}

/// The template's characters, spaces aside.
pub open spec fn template_characters(text: Seq<char>) -> Seq<Character> {
    without_spaces(text).map_values(|c: char| spec_character(c))
}

/// The field names of the characters, in order, with repetitions.
pub open spec fn name_chars(characters: Seq<Character>) -> Seq<char>
    decreases characters.len(),
{
    if characters.len() == 0 {
        seq![]
    } else {
        let previous = name_chars(characters.drop_last());
        match characters.last() {
            Character::Name(name) => previous.push(name@),
            _ => previous,
        }
    }
}

/// Each character repeated `count` times.
pub open spec fn expanded(characters: Seq<Character>, count: nat) -> Seq<Character> {
    Seq::new(characters.len() * count, |i: int| characters[i / (count as int)])
}

/// The text of the characters, last first (the least significant bit first).
pub open spec fn reversed_text(characters: Seq<Character>) -> Seq<char> {
    Seq::new(characters.len(), |i: int| character_char(characters[characters.len() - 1 - i]))
}

/// How many bits each template character stands for.
#[derive(Clone, Copy, Debug, PartialEq, Eq, Structural)]
pub enum Base {
    Binary,
    Hexadecimal,
}

impl Base {
    pub open spec fn spec_bits_per_digit(self) -> nat {
        match self {
            Base::Binary => 1,
            Base::Hexadecimal => 4,
        }
    }

    pub fn bits_per_digit(self) -> (bits: usize)
        ensures bits == self.spec_bits_per_digit(),
    {
        match self {
            Base::Binary => 1,
            Base::Hexadecimal => 4,
        }
    }
}

/// A parsed template: its characters (one per bit), where each field's bits lie, whether it
/// has placeholders, and the literal that its literal bits spell.
pub struct Template {
    characters: Vec<Character>,
    locations_by_name: Vec<(Name, Vec<Location>)>,
    has_placeholders: bool,
    literal: Option<u128>,
}

/// What a `Template` holds, as plain values.
pub struct TemplateView {
    pub characters: Seq<Character>,
    pub locations_by_name: Seq<(char, Seq<Location>)>,
    pub has_placeholders: bool,
    pub literal: Option<u128>,
}

impl View for Template {
    type V = TemplateView;

    closed spec fn view(&self) -> TemplateView {
        TemplateView {
            characters: self.characters@,
            locations_by_name: self.locations_by_name@.map_values(|entry: (Name, Vec<Location>)| (entry.0@, entry.1@)),
            has_placeholders: self.has_placeholders,
            literal: self.literal,
        }
    }
}

/// Each name with the locations of its runs, in order.
pub open spec fn names_with_locations(names: Seq<char>, runs: Seq<(char, usize, usize)>) -> Seq<(char, Seq<Location>)>
    decreases names.len(),
{
    if names.len() == 0 {
        seq![]
    } else {
        names_with_locations(names.drop_last(), runs).push((names.last(), locations_of(runs, names.last())))
    }
}

/// The template that a valid template text describes in a base.
pub open spec fn spec_template(text: Seq<char>, base: Base) -> TemplateView {
    let characters = template_characters(text);
    let bits = expanded(characters, base.spec_bits_per_digit());
    let names = first_occurrences(name_chars(characters));
    let runs = spec_runs(reversed_text(bits));
    TemplateView {
        characters: bits,
        locations_by_name: names_with_locations(names, runs),
        has_placeholders: characters.contains(Character::Placeholder),
        literal: spec_literal(characters),
    }
}

proof fn lemma_binary_value_bound(bits: Seq<bool>)
    ensures
        binary_value(bits) < pow2(bits.len()),
    decreases bits.len(),
{
    if bits.len() > 0 {
        lemma_binary_value_bound(bits.drop_last());
        lemma_pow2_unfold(bits.len());
    } else {
        lemma2_to64();
    }
}

/// A value of at most 128 bits fits in a `u128`.
proof fn lemma_fits_u128(bits: Seq<bool>)
    requires
        bits.len() <= 128,
    ensures
        binary_value(bits) <= u128::MAX,
{
    lemma_binary_value_bound(bits);
    lemma2_to64();
    lemma_pow2_adds(64, 64);
    if bits.len() < 128 {
        lemma_pow2_strictly_increases(bits.len(), 128);
    }
    assert(0x10000000000000000int * 0x10000000000000000int == 0x100000000000000000000000000000000int);
}

fn strip_spaces(text: &str) -> (chars: Vec<char>)
    ensures
        chars@ == without_spaces(text@),
{
    let len = text.unicode_len();
    let mut chars: Vec<char> = Vec::new();
    let mut i: usize = 0;
    while i < len
        invariant
            len == text@.len(),
            i <= len,
            chars@ == without_spaces(text@.take(i as int)),
        decreases len - i,
    {
        let c = text.get_char(i);
        if c != ' ' {
            chars.push(c);
        }
        i = i + 1;
        assert(text@.take(i as int).drop_last() =~= text@.take(i - 1));
    }
    assert(text@.take(len as int) =~= text@);
    chars
}

/// The locations of a name's runs.
fn name_locations(runs: &Vec<(char, usize, usize)>, name_char: char) -> (locations: Vec<Location>)
    ensures
        locations@ == locations_of(runs@, name_char),
{
    let mut locations: Vec<Location> = Vec::new();
    let mut q: usize = 0;
    while q < runs.len()
        invariant
            q <= runs@.len(),
            locations@ == locations_of(runs@.take(q as int), name_char),
        decreases runs@.len() - q,
    {
        let (c, start, len) = runs[q];
        assert(runs@.take(q + 1).drop_last() =~= runs@.take(q as int));
        if c == name_char {
            locations.push(Location::new(len as u8, start as u8));
        }
        q = q + 1;
    }
    assert(runs@.take(q as int) =~= runs@);
    locations
}

/// The template characters of valid text characters.
fn parse_characters(text: &Vec<char>) -> (characters: Vec<Character>)
    requires
        forall|i: int| 0 <= i < text@.len() ==> is_template_char(#[trigger] text@[i]),
    ensures
        characters@ == text@.map_values(|c: char| spec_character(c)),
{
    let mut characters: Vec<Character> = Vec::new();
    let mut i: usize = 0;
    while i < text.len()
        invariant
            forall|j: int| 0 <= j < text@.len() ==> is_template_char(#[trigger] text@[j]),
            i <= text@.len(),
            characters@ == text@.take(i as int).map_values(|c: char| spec_character(c)),
        decreases text@.len() - i,
    {
        assert(is_template_char(text@[i as int]));
        let character = Character::from_char(text[i]).unwrap();
        characters.push(character);
        i = i + 1;
        assert(characters@ =~= text@.take(i as int).map_values(|c: char| spec_character(c)));
    }
    assert(text@.take(i as int) =~= text@);
    characters
}

/// Whether the characters hold a placeholder, and their field names in order.
fn scan_characters(characters: &Vec<Character>) -> (result: (bool, Vec<char>))
    ensures
        result.0 == characters@.contains(Character::Placeholder),
        result.1@ == name_chars(characters@),
{
    let mut has_placeholders = false;
    let mut names_in_order: Vec<char> = Vec::new();
    let mut k: usize = 0;
    while k < characters.len()
        invariant
            k <= characters@.len(),
            has_placeholders <==> characters@.take(k as int).contains(Character::Placeholder),
            names_in_order@ == name_chars(characters@.take(k as int)),
        decreases characters@.len() - k,
    {
        let character = characters[k];
        let ghost before = characters@.take(k as int);
        assert(characters@.take(k + 1).drop_last() =~= before);
        assert(characters@.take(k + 1).last() == character);
        if character == Character::Placeholder {
            has_placeholders = true;
        }
        proof {
            let after = characters@.take(k + 1);
            if before.contains(Character::Placeholder) {
                let j = choose|j: int| 0 <= j < before.len() && before[j] == Character::Placeholder;
                assert(after[j] == Character::Placeholder);
            }
            if after.contains(Character::Placeholder) {
                let j = choose|j: int| 0 <= j < after.len() && after[j] == Character::Placeholder;
                if j < k {
                    assert(before[j] == Character::Placeholder);
                }
            }
            if character == Character::Placeholder {
                assert(after[k as int] == Character::Placeholder);
            }
        }
        if let Character::Name(name) = character {
            names_in_order.push(name.to_char());
        }
        k = k + 1;
    }
    assert(characters@.take(k as int) =~= characters@);
    (has_placeholders, names_in_order)
}

/// Each character repeated `bits_per_digit` times.
fn expand_characters(characters: &Vec<Character>, bits_per_digit: usize) -> (bits: Vec<Character>)
    requires
        bits_per_digit >= 1,
        characters@.len() * bits_per_digit <= 128,
    ensures
        bits@ == expanded(characters@, bits_per_digit as nat),
{
    let mut bits: Vec<Character> = Vec::new();
    let mut m: usize = 0;
    assert(characters@.take(0).len() == 0);
    assert(expanded(characters@.take(0), bits_per_digit as nat) =~= Seq::<Character>::empty());
    while m < characters.len()
        invariant
            m <= characters@.len(),
            characters@.len() * bits_per_digit <= 128,
            bits_per_digit >= 1,
            bits@ == expanded(characters@.take(m as int), bits_per_digit as nat),
        decreases characters@.len() - m,
    {
        let character = characters[m];
        let mut r: usize = 0;
        proof {
            let previous = characters@.take(m as int);
            assert(bits@.len() == m * bits_per_digit) by (nonlinear_arith)
                requires bits@.len() == previous.len() * bits_per_digit, previous.len() == m;
            assert forall|j: int| 0 <= j < m * bits_per_digit implies #[trigger] bits@[j] == characters@[j / (bits_per_digit as int)] by {
                assert(0 <= j / (bits_per_digit as int) < m) by (nonlinear_arith)
                    requires 0 <= j < m * bits_per_digit, bits_per_digit >= 1;
                assert(bits@[j] == previous[j / (bits_per_digit as int)]);
            }
        }
        while r < bits_per_digit
            invariant
                r <= bits_per_digit,
                bits_per_digit >= 1,
                m < characters@.len(),
                characters@.len() * bits_per_digit <= 128,
                character == characters@[m as int],
                bits@.len() == m * bits_per_digit + r,
                forall|j: int| 0 <= j < m * bits_per_digit ==> #[trigger] bits@[j] == characters@[j / (bits_per_digit as int)],
                forall|j: int| m * bits_per_digit <= j < bits@.len() ==> #[trigger] bits@[j] == character,
            decreases bits_per_digit - r,
        {
            proof {
                assert(m * bits_per_digit + r < characters@.len() * bits_per_digit) by (nonlinear_arith)
                    requires m < characters@.len(), r < bits_per_digit;
            }
            bits.push(character);
            r = r + 1;
        }
        proof {
            assert((m + 1) * bits_per_digit == m * bits_per_digit + bits_per_digit) by (nonlinear_arith);
            assert forall|j: int| 0 <= j < (m + 1) * bits_per_digit implies #[trigger] bits@[j]
                == characters@.take(m + 1)[j / (bits_per_digit as int)] by {
                if j < m * bits_per_digit {
                    assert(j / (bits_per_digit as int) < m) by (nonlinear_arith)
                        requires 0 <= j < m * bits_per_digit, bits_per_digit >= 1;
                } else {
                    assert(j / (bits_per_digit as int) == m) by (nonlinear_arith)
                        requires m * bits_per_digit <= j < (m + 1) * bits_per_digit, bits_per_digit >= 1;
                }
            }
            assert(bits@.len() == (m + 1) * bits_per_digit) by (nonlinear_arith)
                requires bits@.len() == m * bits_per_digit + bits_per_digit;
            assert(bits@ =~= expanded(characters@.take(m + 1), bits_per_digit as nat));
        }
        m = m + 1;
    }
    assert(characters@.take(m as int) =~= characters@);
    bits
}

/// The text of the characters, last first.
fn reverse_text(bits: &Vec<Character>) -> (reversed: Vec<char>)
    ensures
        reversed@ == reversed_text(bits@),
{
    let mut reversed: Vec<char> = Vec::new();
    let mut n: usize = bits.len();
    while n > 0
        invariant
            n <= bits@.len(),
            reversed@.len() == bits@.len() - n,
            forall|j: int| 0 <= j < reversed@.len() ==> #[trigger] reversed@[j] == character_char(bits@[bits@.len() - 1 - j]),
        decreases n,
    {
        n = n - 1;
        reversed.push(bits[n].to_char());
    }
    assert(reversed@ =~= reversed_text(bits@));
    reversed
}

/// The names of a valid template's characters are lowercase letters.
proof fn lemma_name_chars_letters(characters: Seq<Character>, text: Seq<char>)
    requires
        characters.len() <= text.len(),
        forall|i: int| 0 <= i < characters.len() ==> #[trigger] characters[i] == spec_character(text[i]),
        forall|i: int| 0 <= i < text.len() ==> is_template_char(#[trigger] text[i]),
    ensures
        forall|j: int| 0 <= j < name_chars(characters).len() ==> is_name_char(#[trigger] name_chars(characters)[j]),
    decreases characters.len(),
{
    broadcast use lemma_spec_name_view;
    if characters.len() > 0 {
        let previous = characters.drop_last();
        assert forall|i: int| 0 <= i < previous.len() implies #[trigger] previous[i] == spec_character(text[i]) by {
            assert(previous[i] == characters[i]);
        }
        lemma_name_chars_letters(previous, text);
        let last = characters.len() - 1;
        assert(characters.last() == spec_character(text[last]));
        assert(is_template_char(text[last]));
        let earlier = name_chars(previous);
        assert forall|j: int| 0 <= j < name_chars(characters).len() implies is_name_char(#[trigger] name_chars(characters)[j]) by {
            if j < earlier.len() {
                assert(name_chars(characters)[j] == earlier[j]);
            } else {
                assert(characters.last() == Character::Name(spec_name(text[last])));
                assert(spec_name(text[last])@ == text[last]);
            }
        }
    }
}

/// The names of a valid template are lowercase letters.
proof fn lemma_template_names_are_letters(text: Seq<char>)
    requires
        is_valid_template(text),
    ensures
        forall|j: int| 0 <= j < name_chars(template_characters(text)).len()
            ==> is_name_char(#[trigger] name_chars(template_characters(text))[j]),
{
    let w = without_spaces(text);
    assert forall|i: int| 0 <= i < w.len() implies is_template_char(#[trigger] w[i]) by {}
    lemma_name_chars_letters(template_characters(text), w);
}

/// Keeping the first occurrences keeps only characters that were there: lowercase letters stay
/// lowercase letters.
proof fn lemma_first_occurrences_letters(s: Seq<char>)
    requires
        forall|i: int| 0 <= i < s.len() ==> is_name_char(#[trigger] s[i]),
    ensures
        forall|j: int| 0 <= j < first_occurrences(s).len() ==> is_name_char(#[trigger] first_occurrences(s)[j]),
    decreases s.len(),
{
    if s.len() > 0 {
        let previous = s.drop_last();
        assert forall|i: int| 0 <= i < previous.len() implies is_name_char(#[trigger] previous[i]) by {
            assert(previous[i] == s[i]);
        }
        lemma_first_occurrences_letters(previous);
        assert(is_name_char(s[s.len() - 1]));
        let earlier = first_occurrences(previous);
        assert forall|j: int| 0 <= j < first_occurrences(s).len() implies is_name_char(#[trigger] first_occurrences(s)[j]) by {
            if j < earlier.len() {
                assert(first_occurrences(s)[j] == earlier[j]);
            }
        }
    }
}

/// Each name with the locations of its runs.
fn locations_by_name_of(names: Vec<char>, runs: &Vec<(char, usize, usize)>) -> (result: Vec<(Name, Vec<Location>)>)
    requires
        forall|i: int| 0 <= i < names@.len() ==> is_name_char(#[trigger] names@[i]),
    ensures
        result@.map_values(|entry: (Name, Vec<Location>)| (entry.0@, entry.1@)) == names_with_locations(names@, runs@),
{
    let mut locations_by_name: Vec<(Name, Vec<Location>)> = Vec::new();
    let mut p: usize = 0;
    while p < names.len()
        invariant
            p <= names@.len(),
            forall|i: int| 0 <= i < names@.len() ==> is_name_char(#[trigger] names@[i]),
            locations_by_name@.map_values(|entry: (Name, Vec<Location>)| (entry.0@, entry.1@))
                == names_with_locations(names@.take(p as int), runs@),
        decreases names@.len() - p,
    {
        let name_char = names[p];
        let locations = name_locations(runs, name_char);
        let ghost before = locations_by_name@;
        locations_by_name.push((Name::named(name_char), locations));
        proof {
            assert(names@.take(p + 1).drop_last() =~= names@.take(p as int));
            assert(locations_by_name@.map_values(|entry: (Name, Vec<Location>)| (entry.0@, entry.1@))
                =~= before.map_values(|entry: (Name, Vec<Location>)| (entry.0@, entry.1@)).push((name_char, locations_of(runs@, name_char))));
        }
        p = p + 1;
    }
    assert(names@.take(p as int) =~= names@);
    locations_by_name
}

impl Template {
    /// Parses a template text: spaces are dropped, each other character is a placeholder (`.`),
    /// a literal bit (`0` or `1`) or a field name (a lowercase letter) standing for as many bits
    /// as a digit of the base has. At most 128 bits.
    pub fn from_template(template: &str, base: Base) -> (parsed: Template)
        requires
            is_valid_template(template@),
            without_spaces(template@).len() * base.spec_bits_per_digit() <= 128,
        ensures
            parsed@ == spec_template(template@, base),
    {
        let text = strip_spaces(template);
        let characters = parse_characters(&text);
        assert(characters@ == template_characters(template@));

        proof {
            assert(characters@.len() <= 128) by (nonlinear_arith)
                requires characters@.len() * base.spec_bits_per_digit() <= 128, base.spec_bits_per_digit() >= 1;
            lemma_fits_u128(literal_bits(characters@));
        }
        let literal = Character::characters_to_literal(characters.as_slice());

        let (has_placeholders, names_in_order) = scan_characters(&characters);
        let names = unique_chars(&names_in_order);
        proof {
            lemma_template_names_are_letters(template@);
            lemma_first_occurrences_letters(names_in_order@);
        }

        // Each template character is repeated if we aren't working in base 2.
        let bits = expand_characters(&characters, base.bits_per_digit());
        let reversed = reverse_text(&bits);
        let runs = char_runs(&reversed);
        let locations_by_name = locations_by_name_of(names, &runs);

        let parsed = Template { characters: bits, locations_by_name, has_placeholders, literal };
        assert(parsed@.locations_by_name == spec_template(template@, base).locations_by_name);
        parsed
    }

    pub fn has_placeholders(&self) -> (has_placeholders: bool)
        ensures has_placeholders == self@.has_placeholders,
    {
        self.has_placeholders
    }
}

} // verus!

verus! {

/// Where a field's bits can be taken from: each location is nonempty, narrower than 128 bits and
/// within the input, and together they hold at most 128 bits.
pub open spec fn extractable(locations: Seq<Location>) -> bool {
    &&& forall|k: int| 0 <= k < locations.len() ==> 1 <= (#[trigger] locations[k]).len < 128
        && locations[k].mask_offset + locations[k].len <= 128
    &&& locations_length(locations) <= 128
}

/// A field's value: the bits at each location, the first location's bits lowest.
pub open spec fn field_value(input: u128, locations: Seq<Location>) -> u128
    decreases locations.len(),
{
    if locations.len() == 0 {
        0
    } else {
        let location = locations.last();
        let previous = locations.drop_last();
        let mask = ((((1u128 << (location.len as u32)) - 1) as u128) << (location.mask_offset as u32)) as u128;
        field_value(input, previous) | (((input & mask) >> (location.mask_offset as u32)) << (locations_length(previous) as u32))
    }
}

proof fn lemma_locations_length_prefix(locations: Seq<Location>, k: int)
    requires
        0 <= k <= locations.len(),
    ensures
        locations_length(locations.take(k)) <= locations_length(locations),
    decreases locations.len(),
{
    if k < locations.len() {
        lemma_locations_length_prefix(locations.drop_last(), k);
        assert(locations.drop_last().take(k) =~= locations.take(k));
    } else {
        assert(locations.take(k) =~= locations);
    }
}

/// The value of the field at the given locations of the input.
pub fn extract_field(input: u128, locations: &Vec<Location>) -> (value: u128)
    requires
        extractable(locations@),
    ensures
        value == field_value(input, locations@),
{
    let mut value: u128 = 0;
    let mut offset: u32 = 0;
    let mut k: usize = 0;
    while k < locations.len()
        invariant
            extractable(locations@),
            k <= locations@.len(),
            value == field_value(input, locations@.take(k as int)),
            offset == locations_length(locations@.take(k as int)),
        decreases locations@.len() - k,
    {
        let location = locations[k];
        proof {
            lemma_locations_length_prefix(locations@, k + 1);
            assert(locations@.take(k + 1).drop_last() =~= locations@.take(k as int));
            assert(locations@.take(k + 1).last() == location);
        }
        let len = location.len as u32;
        let mask_offset = location.mask_offset as u32;
        let one: u128 = 1;
        assert(one << len >= 1) by (bit_vector)
            requires one == 1, len < 128;
        let mask: u128 = ((one << len) - 1) << mask_offset;
        value = value | (((input & mask) >> mask_offset) << offset);
        offset = offset + len;
        k = k + 1;
    }
    assert(locations@.take(k as int) =~= locations@);
    value
}

/// The number of bits of a field: the lengths of its locations added up.
pub fn field_length(locations: &Vec<Location>) -> (length: u32)
    requires
        extractable(locations@),
    ensures
        length == locations_length(locations@),
{
    let mut length: u32 = 0;
    let mut k: usize = 0;
    while k < locations.len()
        invariant
            extractable(locations@),
            k <= locations@.len(),
            length == locations_length(locations@.take(k as int)),
        decreases locations@.len() - k,
    {
        proof {
            lemma_locations_length_prefix(locations@, k + 1);
            assert(locations@.take(k + 1).drop_last() =~= locations@.take(k as int));
            assert(locations@.take(k + 1).last() == locations@[k as int]);
        }
        length = length + locations[k].len as u32;
        k = k + 1;
    }
    assert(locations@.take(k as int) =~= locations@);
    length
}

/// The fields put in place of a template's names: each name must have one run of bits, and a
/// field of its name exactly as wide, which is shifted up to the run; none otherwise.
pub open spec fn spec_substitution(fields: Seq<FieldEntry>, targets: Seq<(char, Seq<Location>)>) -> Option<u128>
    decreases targets.len(),
{
    if targets.len() == 0 {
        Some(0)
    } else {
        match spec_substitution(fields, targets.drop_last()) {
            Some(acc) => {
                let locations = targets.last().1;
                match last_entry(fields, targets.last().0) {
                    Some(field) => if locations.len() == 1 && field.2 == locations[0].len {
                        Some(acc | (field.1 << (locations[0].mask_offset as u32)))
                    } else {
                        None
                    },
                    None => None,
                }
            },
            None => None,
        }
    }
}

/// The value that a template makes of fields: the fields in place of its names, with its
/// literal bits set.
pub open spec fn spec_substituted(fields: Seq<FieldEntry>, template: TemplateView) -> Option<u128> {
    match spec_substitution(fields, template.locations_by_name) {
        Some(value) => Some(match template.literal {
            Some(literal) => value | literal,
            None => value,
        }),
        None => None,
    }
}

impl Template {
    /// Every field's bits can be taken from the input.
    pub open spec fn fields_extractable(&self) -> bool {
        forall|i: int| 0 <= i < self@.locations_by_name.len() ==> extractable((#[trigger] self@.locations_by_name[i]).1)
    }

    /// Puts fields in place of the template's names and sets its literal bits; none if a name
    /// has more than one run of bits, or no field of its own width.
    pub(crate) fn substitute_fields(&self, fields: &Vec<FieldEntry>) -> (value: Option<u128>)
        requires
            self.fields_extractable(),
        ensures
            value == spec_substituted(fields@, self@),
    {
        let mut value: u128 = 0;
        let mut i: usize = 0;
        while i < self.locations_by_name.len()
            invariant
                self.fields_extractable(),
                i <= self.locations_by_name@.len(),
                spec_substitution(fields@, self@.locations_by_name.take(i as int)) == Some(value),
            decreases self.locations_by_name@.len() - i,
        {
            let ghost targets = self@.locations_by_name.take(i + 1);
            assert(targets.drop_last() =~= self@.locations_by_name.take(i as int));
            assert(targets.last() == self@.locations_by_name[i as int]);
            assert(self@.locations_by_name[i as int] == (self.locations_by_name@[i as int].0@, self.locations_by_name@[i as int].1@));
            assert(extractable(self@.locations_by_name[i as int].1));
            let name = self.locations_by_name[i].0.to_char();
            let locations = &self.locations_by_name[i].1;
            match find_last_entry(fields, name) {
                Some(field) => {
                    if locations.len() != 1 || field.2 != locations[0].len as u32 {
                        proof { lemma_substitution_stays_none(fields@, self@.locations_by_name, i + 1); }
                        return None;
                    }
                    assert(locations@[0].mask_offset < 128);
                    value = value | (field.1 << (locations[0].mask_offset as u32));
                },
                None => {
                    proof { lemma_substitution_stays_none(fields@, self@.locations_by_name, i + 1); }
                    return None;
                },
            }
            i = i + 1;
        }
        assert(self@.locations_by_name.take(i as int) =~= self@.locations_by_name);
        match self.literal {
            Some(literal) => Some(value | literal),
            None => Some(value),
        }
    }

    /// Each field of the template with its value in the input and its number of bits, in the
    /// order of first appearance.
    pub fn field_entries(&self, input: u128) -> (entries: Vec<(char, u128, u32)>)
        requires
            self.fields_extractable(),
        ensures
            entries@ == self@.locations_by_name.map_values(|entry: (char, Seq<Location>)|
                (entry.0, field_value(input, entry.1), locations_length(entry.1) as u32)),
    {
        let mut entries: Vec<(char, u128, u32)> = Vec::new();
        let mut i: usize = 0;
        while i < self.locations_by_name.len()
            invariant
                self.fields_extractable(),
                i <= self.locations_by_name@.len(),
                entries@ == self@.locations_by_name.take(i as int).map_values(|entry: (char, Seq<Location>)|
                    (entry.0, field_value(input, entry.1), locations_length(entry.1) as u32)),
            decreases self.locations_by_name@.len() - i,
        {
            let name = self.locations_by_name[i].0.to_char();
            assert(self@.locations_by_name[i as int] == (self.locations_by_name@[i as int].0@, self.locations_by_name@[i as int].1@));
            let value = extract_field(input, &self.locations_by_name[i].1);
            let length = field_length(&self.locations_by_name[i].1);
            entries.push((name, value, length));
            assert(entries@ =~= self@.locations_by_name.take(i + 1).map_values(|entry: (char, Seq<Location>)|
                (entry.0, field_value(input, entry.1), locations_length(entry.1) as u32)));
            i = i + 1;
        }
        assert(self@.locations_by_name.take(i as int) =~= self@.locations_by_name);
        entries
    }

    /// The value of each field of the template in the input, in the order of first appearance.
    pub fn field_values(&self, input: u128) -> (values: Vec<(Name, u128)>)
        requires
            self.fields_extractable(),
        ensures
            values@.map_values(|entry: (Name, u128)| (entry.0@, entry.1))
                == self@.locations_by_name.map_values(|entry: (char, Seq<Location>)| (entry.0, field_value(input, entry.1))),
    {
        let mut values: Vec<(Name, u128)> = Vec::new();
        let mut i: usize = 0;
        while i < self.locations_by_name.len()
            invariant
                self.fields_extractable(),
                i <= self.locations_by_name@.len(),
                values@.map_values(|entry: (Name, u128)| (entry.0@, entry.1))
                    == self@.locations_by_name.take(i as int).map_values(|entry: (char, Seq<Location>)| (entry.0, field_value(input, entry.1))),
            decreases self.locations_by_name@.len() - i,
        {
            let name = self.locations_by_name[i].0;
            assert(self@.locations_by_name[i as int] == (self.locations_by_name@[i as int].0@, self.locations_by_name@[i as int].1@));
            let value = extract_field(input, &self.locations_by_name[i].1);
            let ghost before = values@;
            values.push((name, value));
            proof {
                let mapped = values@.map_values(|entry: (Name, u128)| (entry.0@, entry.1));
                let previous = before.map_values(|entry: (Name, u128)| (entry.0@, entry.1));
                assert(mapped =~= previous.push((name@, value)));
                let expected = self@.locations_by_name.take(i + 1).map_values(|entry: (char, Seq<Location>)| (entry.0, field_value(input, entry.1)));
                let expected_before = self@.locations_by_name.take(i as int).map_values(|entry: (char, Seq<Location>)| (entry.0, field_value(input, entry.1)));
                assert(expected =~= expected_before.push((self@.locations_by_name[i as int].0, field_value(input, self@.locations_by_name[i as int].1))));
            }
            i = i + 1;
        }
        assert(self@.locations_by_name.take(i as int) =~= self@.locations_by_name);
        values
    }
}

/// The runs of a template's bits in a base, the least significant first.
pub open spec fn template_runs(template: Seq<char>, base: Base) -> Seq<(char, usize, usize)> {
    spec_runs(reversed_text(expanded(template_characters(template), base.spec_bits_per_digit())))
}

/// The widths of the unsigned integer types that a template can describe.
pub open spec fn is_integer_width(bits: nat) -> bool {
    bits == 8 || bits == 16 || bits == 32 || bits == 64 || bits == 128
}

/// A template that can be split in a base: valid characters, standing for as many bits as an
/// unsigned integer type holds (8, 16, 32, 64 or 128, spaces aside), and no run of one field as
/// wide as 128 bits.
pub open spec fn is_splittable_template(template: Seq<char>, base: Base) -> bool {
    &&& is_valid_template(template)
    &&& is_integer_width(without_spaces(template).len() * base.spec_bits_per_digit())
    &&& forall|k: int| 0 <= k < template_runs(template, base).len()
        ==> (#[trigger] template_runs(template, base)[k]).2 < 128
}

/// The names of a template, in order of first appearance.
pub open spec fn first_names(template: Seq<char>) -> Seq<char> {
    first_occurrences(name_chars(template_characters(template)))
}

pub proof fn lemma_names_with_locations(names: Seq<char>, runs: Seq<(char, usize, usize)>)
    ensures
        names_with_locations(names, runs).len() == names.len(),
        forall|i: int| 0 <= i < names.len() ==> #[trigger] names_with_locations(names, runs)[i]
            == (names[i], locations_of(runs, names[i])),
    decreases names.len(),
{
    if names.len() > 0 {
        lemma_names_with_locations(names.drop_last(), runs);
        assert forall|i: int| 0 <= i < names.len() implies #[trigger] names_with_locations(names, runs)[i]
            == (names[i], locations_of(runs, names[i])) by {
            if i < names.len() - 1 {
                assert(names.drop_last()[i] == names[i]);
                assert(names_with_locations(names, runs)[i] == names_with_locations(names.drop_last(), runs)[i]);
            }
        }
    }
}

/// Every field of a splittable template can be extracted.
pub proof fn lemma_splittable_template_extractable(template: Seq<char>, base: Base)
    requires
        is_splittable_template(template, base),
    ensures
        forall|i: int| 0 <= i < spec_template(template, base).locations_by_name.len()
            ==> extractable((#[trigger] spec_template(template, base).locations_by_name[i]).1),
{
    let characters = template_characters(template);
    let bits = expanded(characters, base.spec_bits_per_digit());
    let runs = spec_runs(reversed_text(bits));
    assert(reversed_text(bits).len() <= 128);
    lemma_runs_partition(reversed_text(bits));
    let entries = spec_template(template, base).locations_by_name;
    lemma_names_with_locations(first_names(template), runs);
    assert(template_runs(template, base) == runs);
    assert forall|i: int| 0 <= i < entries.len() implies extractable((#[trigger] entries[i]).1) by {
        let c = first_names(template)[i];
        let locations = locations_of(runs, c);
        lemma_locations_of_runs(runs, c);
        assert forall|k: int| 0 <= k < locations.len() implies 1 <= (#[trigger] locations[k]).len < 128
            && locations[k].mask_offset + locations[k].len <= 128 by {
            let r = choose|r: int| 0 <= r < runs.len() && locations[k].len == runs[r].2
                && locations[k].mask_offset == runs[r].1;
            assert(template_runs(template, base)[r].2 < 128);
        }
    }
}


/// A field held in one run of bits is the input masked to the run and shifted down to bit 0.
pub proof fn lemma_single_location_field(input: u128, location: Location)
    ensures
        field_value(input, seq![location]) == (input & ((((1u128 << (location.len as u32)) - 1) as u128)
            << (location.mask_offset as u32))) >> (location.mask_offset as u32),
{
    let locations = seq![location];
    assert(locations.drop_last() =~= Seq::<Location>::empty());
    assert(locations_length(locations.drop_last()) == 0);
    assert(locations.last() == location);
    assert(field_value(input, locations.drop_last()) == 0);
    let bits: u128 = (input & ((((1u128 << (location.len as u32)) - 1) as u128) << (location.mask_offset as u32)))
        >> (location.mask_offset as u32);
    assert(0u128 | (bits << 0u32) == bits) by (bit_vector);
}

/// Once a name cannot be filled, neither can the names of any longer prefix.
proof fn lemma_substitution_stays_none(fields: Seq<FieldEntry>, targets: Seq<(char, Seq<Location>)>, count: int)
    requires
        0 < count <= targets.len(),
        spec_substitution(fields, targets.take(count)) is None,
    ensures
        spec_substitution(fields, targets) is None,
    decreases targets.len() - count,
{
    if count < targets.len() {
        assert(targets.take(count + 1).drop_last() =~= targets.take(count));
        lemma_substitution_stays_none(fields, targets, count + 1);
    } else {
        assert(targets.take(count) =~= targets);
    }
}

} // verus!

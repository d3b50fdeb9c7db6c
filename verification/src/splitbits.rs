pub mod character;
pub mod field;
pub mod location;
pub mod template;

use vstd::prelude::*;

use crate::splitbits::character::Name;
use crate::splitbits::field::{merge, spec_merge, FieldEntry};
use crate::splitbits::location::Location;
use crate::splitbits::template::{
    field_value, is_splittable_template, locations_length, spec_substituted, lemma_splittable_template_extractable, spec_template, Base, Template,
};

verus! {

/// The fields that a template splits a value into, by name.
pub struct Fields {
    values: Vec<(Name, u128)>,
}

impl View for Fields {
    type V = Seq<(char, u128)>;

    closed spec fn view(&self) -> Seq<(char, u128)> {
        self.values@.map_values(|entry: (Name, u128)| (entry.0@, entry.1))
    }
}

/// The value of the first field with the given name.
pub open spec fn lookup(values: Seq<(char, u128)>, name: char) -> Option<u128>
    decreases values.len(),
{
    if values.len() == 0 {
        None
    } else if values[0].0 == name {
        Some(values[0].1)
    } else {
        lookup(values.drop_first(), name)
    }
}

impl Fields {
    /// The value of the field with the given name.
    pub fn value(&self, name: char) -> (value: u128)
        requires
            lookup(self@, name) is Some,
        ensures
            value == lookup(self@, name).unwrap(),
    {
        let ghost entries = self@;
        let mut i: usize = 0;
        assert(entries.skip(0) =~= entries);
        while i < self.values.len()
            invariant
                entries == self@,
                entries.len() == self.values@.len(),
                i <= entries.len(),
                lookup(entries, name) == lookup(entries.skip(i as int), name),
            decreases entries.len() - i,
        {
            let (field_name, field_value) = self.values[i];
            assert(entries[i as int] == (field_name@, field_value));
            if field_name.to_char() == name {
                assert(entries.skip(i as int)[0] == entries[i as int]);
                return field_value;
            }
            assert(entries.skip(i as int).drop_first() =~= entries.skip(i + 1));
            i = i + 1;
        }
        assert(entries.skip(i as int).len() == 0);
        0
    }

    /// Whether the one-bit field with the given name is set.
    pub fn flag(&self, name: char) -> (flag: bool)
        requires
            lookup(self@, name) is Some,
        ensures
            flag == (lookup(self@, name).unwrap() != 0),
    {
        self.value(name) != 0
    }
}

/// The fields of a value as a template names them, in order of first appearance: each field's
/// bits, taken from where its letter stands (the rightmost digit being the least significant),
/// side by side.
pub open spec fn split_fields(value: u128, template: Seq<char>, base: Base) -> Seq<(char, u128)> {
    spec_template(template, base).locations_by_name.map_values(
        |entry: (char, Seq<Location>)| (entry.0, field_value(value, entry.1)),
    )
}

fn split(value: u128, template: &str, base: Base) -> (fields: Fields)
    requires
        is_splittable_template(template@, base),
    ensures
        fields@ == split_fields(value, template@, base),
{
    let parsed = Template::from_template(template, base);
    proof {
        lemma_splittable_template_extractable(template@, base);
    }
    Fields { values: parsed.field_values(value) }
}

/// The values of the fields, in order.
fn field_values_in_order(fields: &Fields) -> (values: Vec<u128>)
    ensures
        values@ == fields@.map_values(|entry: (char, u128)| entry.1),
{
    let mut values: Vec<u128> = Vec::new();
    let mut i: usize = 0;
    while i < fields.values.len()
        invariant
            i <= fields.values@.len(),
            values@ == fields@.take(i as int).map_values(|entry: (char, u128)| entry.1),
        decreases fields.values@.len() - i,
    {
        values.push(fields.values[i].1);
        i = i + 1;
        assert(values@ =~= fields@.take(i as int).map_values(|entry: (char, u128)| entry.1));
    }
    assert(fields@.take(i as int) =~= fields@);
    values
}

/// The fields of a value as a binary template names them: each letter stands for one bit.
pub fn splitbits(value: u128, template: &str) -> (fields: Fields)
    requires
        is_splittable_template(template@, Base::Binary),
    ensures
        fields@ == split_fields(value, template@, Base::Binary),
{
    split(value, template, Base::Binary)
}

/// The fields of a value as a hexadecimal template names them: each letter stands for four bits.
pub fn splithex(value: u128, template: &str) -> (fields: Fields)
    requires
        is_splittable_template(template@, Base::Hexadecimal),
    ensures
        fields@ == split_fields(value, template@, Base::Hexadecimal),
{
    split(value, template, Base::Hexadecimal)
}

/// The values of the fields of a binary template, in order of first appearance.
pub fn splitbits_tuple(value: u128, template: &str) -> (values: Vec<u128>)
    requires
        is_splittable_template(template@, Base::Binary),
    ensures
        values@ == split_fields(value, template@, Base::Binary).map_values(|entry: (char, u128)| entry.1),
{
    field_values_in_order(&split(value, template, Base::Binary))
}

/// The values of the fields of a hexadecimal template, in order of first appearance.
pub fn splithex_tuple(value: u128, template: &str) -> (values: Vec<u128>)
    requires
        is_splittable_template(template@, Base::Hexadecimal),
    ensures
        values@ == split_fields(value, template@, Base::Hexadecimal).map_values(|entry: (char, u128)| entry.1),
{
    field_values_in_order(&split(value, template, Base::Hexadecimal))
}

/// The value of the one field that a binary template names.
pub fn onefield(value: u128, template: &str) -> (field: u128)
    requires
        is_splittable_template(template@, Base::Binary),
        spec_template(template@, Base::Binary).locations_by_name.len() == 1,
    ensures
        field == split_fields(value, template@, Base::Binary)[0].1,
{
    let fields = split(value, template, Base::Binary);
    assert(fields@.len() == fields.values@.len());
    assert(fields@[0] == (fields.values@[0].0@, fields.values@[0].1));
    fields.values[0].1
}

/// The value of the one field that a hexadecimal template names.
pub fn onehexfield(value: u128, template: &str) -> (field: u128)
    requires
        is_splittable_template(template@, Base::Hexadecimal),
        spec_template(template@, Base::Hexadecimal).locations_by_name.len() == 1,
    ensures
        field == split_fields(value, template@, Base::Hexadecimal)[0].1,
{
    let fields = split(value, template, Base::Hexadecimal);
    assert(fields@.len() == fields.values@.len());
    assert(fields@[0] == (fields.values@[0].0@, fields.values@[0].1));
    fields.values[0].1
}

/// The fields of one value as a binary template names them, each with its number of bits.
pub open spec fn part_fields(value: u128, template: Seq<char>) -> Seq<FieldEntry> {
    spec_template(template, Base::Binary).locations_by_name.map_values(
        |entry: (char, Seq<Location>)| (entry.0, field_value(value, entry.1), locations_length(entry.1) as u32),
    )
}

/// The fields of several values, merged in order: a name met again has its new bits put below
/// the earlier ones; none if a joined field gets too wide.
pub open spec fn combined_fields(parts: Seq<(u128, Seq<char>)>) -> Option<Seq<FieldEntry>>
    decreases parts.len(),
{
    if parts.len() == 0 {
        Some(Seq::empty())
    } else {
        match combined_fields(parts.drop_last()) {
            Some(fields) => spec_merge(fields, part_fields(parts.last().0, parts.last().1)),
            None => None,
        }
    }
}

/// The value that the target template makes of the fields of the parts.
pub open spec fn spec_splitbits_then_combine(parts: Seq<(u128, Seq<char>)>, target: Seq<char>) -> Option<u128> {
    match combined_fields(parts) {
        Some(fields) => spec_substituted(fields, spec_template(target, Base::Binary)),
        None => None,
    }
}

/// Every prefix of parts whose fields combine combines too.
proof fn lemma_combined_prefix(parts: Seq<(u128, Seq<char>)>, count: int)
    requires
        0 <= count <= parts.len(),
        combined_fields(parts) is Some,
    ensures
        combined_fields(parts.take(count)) is Some,
    decreases parts.len() - count,
{
    if count == parts.len() {
        assert(parts.take(count) =~= parts);
    } else {
        lemma_combined_prefix(parts, count + 1);
        assert(parts.take(count + 1).drop_last() =~= parts.take(count));
    }
}

/// Splits each value by its binary template, merges the fields in order (the bits of a name met
/// again go below the earlier ones), and puts them in place of the target template's names,
/// whose literal bits are set too.
pub fn splitbits_then_combine(parts: &[(u128, &str)], target: &str) -> (value: u128)
    requires
        parts@.len() >= 1,
        forall|i: int| 0 <= i < parts@.len() ==> is_splittable_template((#[trigger] parts@[i]).1@, Base::Binary),
        is_splittable_template(target@, Base::Binary),
        spec_splitbits_then_combine(parts@.map_values(|part: (u128, &str)| (part.0, part.1@)), target@) is Some,
    ensures
        value == spec_splitbits_then_combine(parts@.map_values(|part: (u128, &str)| (part.0, part.1@)), target@).unwrap(),
{
    let ghost views = parts@.map_values(|part: (u128, &str)| (part.0, part.1@));
    let mut fields: Vec<FieldEntry> = Vec::new();
    let mut i: usize = 0;
    while i < parts.len()
        invariant
            views == parts@.map_values(|part: (u128, &str)| (part.0, part.1@)),
            forall|i: int| 0 <= i < parts@.len() ==> is_splittable_template((#[trigger] parts@[i]).1@, Base::Binary),
            combined_fields(views) is Some,
            i <= parts@.len(),
            combined_fields(views.take(i as int)) == Some(fields@),
        decreases parts@.len() - i,
    {
        let (value, template) = parts[i];
        assert(views[i as int] == (value, template@));
        let parsed = Template::from_template(template, Base::Binary);
        proof {
            lemma_splittable_template_extractable(template@, Base::Binary);
            lemma_combined_prefix(views, i + 1);
            assert(views.take(i + 1).drop_last() =~= views.take(i as int));
        }
        let entries = parsed.field_entries(value);
        match merge(&fields, &entries) {
            Some(merged) => fields = merged,
            None => {
                assert(false);
                return 0;
            },
        }
        i = i + 1;
    }
    assert(views.take(i as int) =~= views);
    let parsed_target = Template::from_template(target, Base::Binary);
    proof {
        lemma_splittable_template_extractable(target@, Base::Binary);
    }
    parsed_target.substitute_fields(&fields).unwrap()
}

} // verus!

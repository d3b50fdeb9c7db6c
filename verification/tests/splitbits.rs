use reznez::splitbits::template::{Base, Template};
use reznez::splitbits::{
    onefield, onehexfield, splitbits, splitbits_then_combine, splitbits_tuple, splithex, splithex_tuple,
};

#[test]
fn basic() {
    let fields = splitbits(0b11011101, "aaabbccc");
    assert_eq!(fields.value('a'), 0b110);
    assert_eq!(fields.value('b'), 0b11);
    assert_eq!(fields.value('c'), 0b101);
}

// Decimal constants should work.
#[test]
fn decimal() {
    let fields = splitbits(221, "aaabbccc");
    assert_eq!(fields.value('a'), 0b110);
    assert_eq!(fields.value('b'), 0b11);
    assert_eq!(fields.value('c'), 0b101);
}

// Passing in a variable is the most common use.
#[test]
fn variable() {
    let value = 221;
    let fields = splitbits(value, "aaabbccc");
    assert_eq!(fields.value('a'), 0b110);
    assert_eq!(fields.value('b'), 0b11);
    assert_eq!(fields.value('c'), 0b101);
}

// Single bit fields read as flags.
#[test]
fn bools() {
    let fields = splitbits(0b11010101, "abbbcdee");
    assert_eq!(fields.flag('a'), true);
    assert_eq!(fields.value('b'), 0b101);
    assert_eq!(fields.flag('c'), false);
    assert_eq!(fields.flag('d'), true);
    assert_eq!(fields.value('e'), 0b01);
}

// Periods hold their place, but the bits they correspond to are ignored.
#[test]
fn periods() {
    let fields = splitbits(0b11011101, ".aa.bb..");
    assert_eq!(fields.value('a'), 0b10);
    assert_eq!(fields.value('b'), 0b11);
}

// Spaces are stripped out before processing, whatever place they are in.
#[test]
fn underscores() {
    let fields = splitbits(0b110_11101, " a aa   b bccc  ");
    assert_eq!(fields.value('a'), 0b110);
    assert_eq!(fields.value('b'), 0b11);
    assert_eq!(fields.value('c'), 0b101);
}

#[test]
fn some_of_everything() {
    let fields = splitbits(0b1101_1101, ".ab. cc.d");
    assert_eq!(fields.flag('a'), true);
    assert_eq!(fields.flag('b'), false);
    assert_eq!(fields.value('c'), 0b11);
    assert_eq!(fields.flag('d'), true);
}

// Using the same template twice should work.
#[test]
fn duplicate() {
    let fields = splitbits(0b11011101, "aaabbccc");
    assert_eq!(fields.value('a'), 0b110);
    assert_eq!(fields.value('b'), 0b11);
    assert_eq!(fields.value('c'), 0b101);

    let fields2 = splitbits(0b01001100, "aaabbccc");
    assert_eq!(fields2.value('a'), 0b010);
    assert_eq!(fields2.value('b'), 0b01);
    assert_eq!(fields2.value('c'), 0b100);
}

// A name that occurs in two places gets its bits joined, the rightmost run lowest.
#[test]
fn split_field_joins_its_runs() {
    let fields = splitbits(0b1100_0110, "aa..bbaa");
    assert_eq!(fields.value('a'), 0b1110);
    assert_eq!(fields.value('b'), 0b01);
}

// Wide values split just as narrow ones do.
#[test]
fn sixteen_bit_value() {
    let fields = splitbits(0xABCD, "hhhhhhhhllllllll");
    assert_eq!(fields.value('h'), 0xAB);
    assert_eq!(fields.value('l'), 0xCD);
}

#[test]
fn hex_digits_stand_for_four_bits() {
    let fields = splithex(0xABCD, "aabb");
    assert_eq!(fields.value('a'), 0xAB);
    assert_eq!(fields.value('b'), 0xCD);
    assert_eq!(splithex_tuple(0x1234_5678, "aaab.ccc"), vec![0x123, 0x4, 0x678]);
}

#[test]
fn tuple_lists_fields_in_order_of_appearance() {
    assert_eq!(splitbits_tuple(0b11011101, "aaabbccc"), vec![0b110, 0b11, 0b101]);
    assert_eq!(splitbits_tuple(0b11011101, "cccbbaaa"), vec![0b110, 0b11, 0b101]);
}

#[test]
fn one_field_alone() {
    assert_eq!(onefield(0b11011101, "..aaa..."), 0b011);
    assert_eq!(onehexfield(0x1234, ".aa."), 0x23);
}

#[test]
fn combine_joins_fields_of_several_values() {
    let value = splitbits_then_combine(&[(0b1010_0000, "aaaa...."), (0b0000_0101, "....aaaa")], "aaaaaaaa");
    assert_eq!(value, 0b1010_0101);
    let swapped = splitbits_then_combine(&[(0b1100_0011, "aabb..cc")], "ccbbaa..");
    assert_eq!(swapped, 0b1100_1100);
}

#[test]
fn combine_sets_literal_bits() {
    let value = splitbits_then_combine(&[(0b1100_0000, "bb......")], "1..bb...");
    assert_eq!(value, 0b1001_1000);
}

#[test]
fn field_lengths_count_the_names_bits() {
    let template = Template::from_template("aab. aa..", Base::Binary);
    let entries = template.field_entries(0xFF);
    assert_eq!(entries[0].0, 'a');
    assert_eq!(entries[0].2, 4);
    assert_eq!(entries[1].0, 'b');
    assert_eq!(entries[1].2, 1);
    let template = Template::from_template("ab.a", Base::Hexadecimal);
    let entries = template.field_entries(0xFFFF);
    assert_eq!(entries[0].2, 8);
    assert_eq!(entries[1].2, 4);
}

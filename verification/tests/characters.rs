use reznez::splitbits::character::{Character, Name};
use reznez::splitbits::location::Location;
use reznez::splitbits::template::{Base, Template};

#[test]
fn names_are_lowercase_letters() {
    assert_eq!(Name::new('q').unwrap().to_char(), 'q');
    assert_eq!(Name::new('A'), Err("'A' is not a valid Name.".to_string()));
    assert_eq!(Name::new('7'), Err("'7' is not a valid Name.".to_string()));
}

#[test]
fn template_characters() {
    assert_eq!(Character::from_char('.'), Ok(Character::Placeholder));
    assert_eq!(Character::from_char('0'), Ok(Character::Zero));
    assert_eq!(Character::from_char('1'), Ok(Character::One));
    assert_eq!(Character::from_char('x'), Ok(Character::Name(Name::new('x').unwrap())));
    assert_eq!(Character::from_char('#'), Err("'#' is not a valid Name.".to_string()));
    assert!(Character::One.is_literal());
    assert!(!Character::Placeholder.is_literal());
    assert_eq!(Character::Name(Name::new('b').unwrap()).to_name(), Some(Name::new('b').unwrap()));
    assert_eq!(Character::Zero.to_name(), None);
    assert_eq!(Character::Placeholder.to_char(), '.');
}

#[test]
fn literal_of_characters() {
    let chars = [Character::One, Character::Name(Name::new('a').unwrap()), Character::Zero, Character::One];
    assert_eq!(Character::characters_to_literal(&chars), Some(0b1001));
    let no_literal = [Character::Placeholder, Character::Name(Name::new('a').unwrap())];
    assert_eq!(Character::characters_to_literal(&no_literal), None);
}

#[test]
fn template_placeholders_and_locations() {
    assert!(Template::from_template("a.b1", Base::Binary).has_placeholders());
    assert!(!Template::from_template("ab 10", Base::Hexadecimal).has_placeholders());
    let location = Location::new(3, 5);
    assert_eq!(location.len(), 3);
    assert_eq!(location.mask_offset(), 5);
    assert_eq!(Base::Hexadecimal.bits_per_digit(), 4);
}

#[test]
fn characters_round_trip() {
    for c in ['.', '0', '1', 'a', 'm', 'z'] {
        let character = Character::from_char(c).unwrap();
        assert_eq!(character.to_char(), c);
        assert_eq!(Character::from_char(character.to_char()), Ok(character));
    }
    let name = Name::new('k').unwrap();
    assert_eq!(Name::new(name.to_char()), Ok(name));
}

#[test]
fn placeholders_are_the_dots() {
    assert!(Template::from_template("aa b. cc", Base::Binary).has_placeholders());
    assert!(!Template::from_template("aa b1 cc", Base::Binary).has_placeholders());
}

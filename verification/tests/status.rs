use reznez::cpu::status::Status;

const ALL_SET: Status = Status {
    negative: true,
    overflow: true,
    decimal: true,
    interrupts_disabled: true,
    zero: true,
    carry: true,
};

const NONE_SET: Status = Status {
    negative: false,
    overflow: false,
    decimal: false,
    interrupts_disabled: false,
    zero: false,
    carry: false,
};

const MIXED_SET: Status = Status {
    negative: true,
    overflow: false,
    decimal: true,
    interrupts_disabled: false,
    zero: false,
    carry: true,
};

#[test]
fn all_set_to_string() {
    assert_eq!(ALL_SET.to_string(), "NV__DIZC");
}

#[test]
fn all_set_to_byte() {
    assert_eq!(ALL_SET.to_instruction_byte(), 0b1111_1111);
}

#[test]
fn all_set_round_trip() {
    assert_eq!(Status::from_byte(ALL_SET.to_instruction_byte()), ALL_SET);
}

#[test]
fn none_set_to_string() {
    assert_eq!(NONE_SET.to_string(), "________");
}

#[test]
fn none_set_to_byte() {
    assert_eq!(NONE_SET.to_instruction_byte(), 0b0011_0000);
}

#[test]
fn none_set_round_trip() {
    assert_eq!(Status::from_byte(NONE_SET.to_instruction_byte()), NONE_SET);
}

#[test]
fn mixed_set_to_string() {
    assert_eq!(MIXED_SET.to_string(), "N___D__C");
}

#[test]
fn mixed_set_round_trip() {
    assert_eq!(Status::from_byte(MIXED_SET.to_instruction_byte()), MIXED_SET);
}

#[test]
fn mixed_set_to_byte() {
    assert_eq!(MIXED_SET.to_instruction_byte(), 0b1011_1001);
}

#[test]
fn register_and_interrupt_bytes_differ_in_bits_five_and_four() {
    assert_eq!(ALL_SET.to_register_byte(), 0b1100_1111);
    assert_eq!(ALL_SET.to_interrupt_byte(), 0b1110_1111);
    assert_eq!(Status::from_byte(0b0011_0000), NONE_SET);
    assert_eq!(Status::startup().to_register_byte(), 0b0000_0100);
}

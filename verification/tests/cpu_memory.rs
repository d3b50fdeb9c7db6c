use reznez::cpu::address::{Address, AddressType};
use reznez::cpu::memory::{Memory, PPUSTATUS};
use reznez::cpu::port_access::AccessMode;
use reznez::memory::cpu_address::CpuAddress;
use reznez::util::{get_bit, pack_bools, unpack_bools};
use reznez::gui::DebugScreen;
use reznez::ppu::rgb::Rgb;

#[test]
fn ppu_register_mirrors_fold_down() {
    assert_eq!(Address::new(0x3FFF).to_raw(), 0x2007);
    assert_eq!(Address::new(0x2008).to_raw(), 0x2000);
    assert_eq!(Address::new(0x4000).to_raw(), 0x4000);
    assert_eq!(Address::from_low_high(0x0A, 0x20).to_raw(), 0x2002);
    assert_eq!(Address::zero_page(0x80).to_raw(), 0x0080);
}

#[test]
fn address_arithmetic_wraps() {
    let address = Address::new(0xFFFF);
    assert_eq!(address.advance(2).to_raw(), 0x0001);
    assert_eq!(Address::new(0x0000).offset(-1).to_raw(), 0xFFFF);
    let mut counter = Address::new(0x42FF);
    assert_eq!(counter.inc().to_raw(), 0x4300);
    assert_eq!(counter.page(), 0x43);
    assert_eq!(Address::new(0xABCD).to_low_high(), (0xCD, 0xAB));
}

#[test]
fn address_types() {
    assert_eq!(Address::new(0x0000).get_type(), AddressType::InternalRAM);
    assert_eq!(Address::new(0x2003).get_type(), AddressType::PpuRegister);
    assert_eq!(Address::new(0x4016).get_type(), AddressType::ApuRegister);
    assert_eq!(Address::new(0x401A).get_type(), AddressType::DisabledApuRegister);
    assert_eq!(Address::new(0x8000).get_type(), AddressType::Cartridge);
    assert_eq!(Address::new(0xFFFC).get_type(), AddressType::InterruptVector);
}

#[test]
fn cpu_address_wraps() {
    assert_eq!(CpuAddress::new(0xFFFF).advance(1).to_raw(), 0);
    assert_eq!(CpuAddress::from_low_high(0x34, 0x12).to_raw(), 0x1234);
    assert!(CpuAddress::new(0x12FF).is_end_of_page());
    assert!(!CpuAddress::zero().is_end_of_page());
    assert_eq!(CpuAddress::zero_page(5).offset(-6).to_raw(), 0xFFFF);
}

#[test]
fn stack_push_then_pop() {
    let mut memory = Memory::new();
    memory.push_to_stack(0x42);
    memory.push_address_to_stack(Address::new(0x8123));
    assert_eq!(memory.stack(), &[0x23, 0x81, 0x42, 0, 0]);
    assert_eq!(memory.pop_address_from_stack().to_raw(), 0x8123);
    assert_eq!(memory.pop_from_stack(), 0x42);
    assert_eq!(memory.stack_pointer, 0xFD);
}

#[test]
fn port_accesses_are_latched() {
    let mut memory = Memory::new();
    memory.write(Address::new(0x0010), 7);
    assert!(memory.latch().is_none());
    assert_eq!(memory.read(Address::new(0x0010)), 7);
    memory.bus_access_write(Address::new(PPUSTATUS), 0x80);
    assert_eq!(memory.read(Address::new(PPUSTATUS)), 0x80);
    let latch = memory.latch().unwrap();
    assert_eq!(latch.address.to_raw(), PPUSTATUS);
    assert_eq!(latch.value, 0x80);
    assert!(matches!(latch.access_mode, AccessMode::Read));
    memory.reset_latch();
    assert!(memory.latch().is_none());
    assert_eq!(memory.bus_access_read(Address::new(PPUSTATUS)), 0x80);
}

#[test]
fn bools_pack_most_significant_first() {
    let bools = [true, false, false, false, false, false, true, true];
    assert_eq!(pack_bools(bools), 0b1000_0011);
    assert_eq!(unpack_bools(0b1000_0011), bools);
    assert!(get_bit(0b0000_0100, 2));
    assert!(!get_bit(0b0000_0100, 3));
}

#[test]
fn debug_screen_pixels() {
    let black = Rgb::new(0, 0, 0);
    let red = Rgb::new(255, 0, 0);
    let mut screen: DebugScreen<4, 3> = DebugScreen::new(black);
    assert_eq!(screen.width(), 4);
    assert_eq!(screen.height(), 3);
    screen.set_pixel(3, 2, red);
    assert_eq!(screen.pixel(3, 2), red);
    assert_eq!(screen.pixel(2, 2), black);
}

#[test]
fn address_text_is_four_hex_digits() {
    assert_eq!(Address::new(0x2002).to_string(), "$2002");
    assert_eq!(Address::new(0x00AF).to_string(), "$00AF");
    assert_eq!(Address::new(0xFFFF).to_string(), "$FFFF");
}

#[test]
fn ram_mirrors_fold_down() {
    assert_eq!(Address::new(0x0800).to_raw(), 0x0000);
    assert_eq!(Address::new(0x1FFF).to_raw(), 0x07FF);
    assert_eq!(Address::new(0x1234).get_type(), AddressType::InternalRAM);
    assert_eq!(reznez::address::Address::new(0x0FFF).to_raw(), 0x07FF);
    assert_eq!(reznez::address::Address::new(0x0FFF).get_type(), reznez::address::AddressType::InternalRAM);
    assert_eq!(reznez::address::Address::new(0x3008).get_type(), reznez::address::AddressType::PpuRegister);
}

#[test]
fn stack_round_trip_wraps_within_its_page() {
    let mut memory = Memory::new();
    memory.stack_pointer = 0x00;
    memory.push_address_to_stack(Address::new(0x1ABC));
    assert_eq!(memory.stack_pointer, 0xFE);
    let popped = memory.pop_address_from_stack();
    assert_eq!(popped.to_raw(), 0x02BC);
    assert_eq!(memory.stack_pointer, 0x00);
}

use reznez::cartridge::cartridge_header::{CartridgeHeader, CartridgeHeaderBuilder, ConsoleType};
use reznez::ppu::name_table_mirroring::NameTableMirroring;

fn ines_header(bytes_4_to_15: [u8; 12]) -> [u8; 16] {
    let mut header = [0u8; 16];
    header[0] = 0x4E;
    header[1] = 0x45;
    header[2] = 0x53;
    header[3] = 0x1A;
    header[4..].copy_from_slice(&bytes_4_to_15);
    header
}

#[test]
fn parse_plain_ines_header() {
    // 2 PRG chunks, 1 CHR chunk, mapper 0x21, vertical mirroring, battery.
    let header = ines_header([2, 1, 0x13, 0x20, 0, 0, 0, 0, 0, 0, 0, 0]);
    let parsed = CartridgeHeader::parse(header, 0xDEADBEEF).unwrap();
    assert_eq!(parsed.prg_rom_size, Some(32 * 1024));
    assert_eq!(parsed.chr_rom_size, Some(8 * 1024));
    assert_eq!(parsed.mapper_number, Some(0x21));
    assert_eq!(parsed.submapper_number, None);
    assert_eq!(parsed.name_table_mirroring, Some(NameTableMirroring::Vertical));
    assert_eq!(parsed.has_persistent_memory, Some(true));
    assert_eq!(parsed.full_hash, Some(0xDEADBEEF));
    assert_eq!(parsed.prg_work_ram_size, None);
}

#[test]
fn parse_nes2_header() {
    // NES 2.0: byte 7 bits 2-3 are 0b10; byte 8 holds submapper (high) and mapper high bits (low).
    let header = ines_header([1, 0, 0x00, 0x18, 0x52, 0, 0x07, 0x70, 0, 0, 0, 0]);
    let parsed = CartridgeHeader::parse(header, 1).unwrap();
    assert_eq!(parsed.mapper_number, Some(0x210));
    assert_eq!(parsed.submapper_number, Some(5));
    assert_eq!(parsed.prg_work_ram_size, Some(64 << 7));
    assert_eq!(parsed.prg_save_ram_size, Some(0));
    assert_eq!(parsed.chr_work_ram_size, Some(0));
    assert_eq!(parsed.chr_save_ram_size, Some(64 << 7));
    assert_eq!(parsed.name_table_mirroring, Some(NameTableMirroring::Horizontal));
    assert_eq!(parsed.has_persistent_memory, Some(false));
}

#[test]
fn parse_four_screen_leaves_mirroring_open() {
    let header = ines_header([1, 1, 0b0000_1001, 0, 0, 0, 0, 0, 0, 0, 0, 0]);
    let parsed = CartridgeHeader::parse(header, 0).unwrap();
    assert_eq!(parsed.name_table_mirroring, None);
}

#[test]
fn parse_rejects_non_ines() {
    let mut header = [0u8; 16];
    header[0] = 1;
    header[1] = 2;
    header[2] = 3;
    header[3] = 4;
    let error = CartridgeHeader::parse(header, 0).unwrap_err();
    assert_eq!(error, "Cannot load non-iNES ROM. Found [1, 2, 3, 4] but need [78, 69, 83, 26].");
}

#[test]
fn parse_rejects_trainer() {
    let header = ines_header([1, 1, 0b0000_0100, 0, 0, 0, 0, 0, 0, 0, 0, 0]);
    assert_eq!(CartridgeHeader::parse(header, 0).unwrap_err(), "Trainer isn't implemented yet.");
}

#[test]
fn parse_rejects_play_choice() {
    let header = ines_header([1, 1, 0, 0b0000_0010, 0, 0, 0, 0, 0, 0, 0, 0]);
    assert_eq!(CartridgeHeader::parse(header, 0).unwrap_err(), "PlayChoice isn't implemented yet.");
}

#[test]
fn parse_rejects_vs_unisystem() {
    let header = ines_header([1, 1, 0, 0b0000_0001, 0, 0, 0, 0, 0, 0, 0, 0]);
    assert_eq!(CartridgeHeader::parse(header, 0).unwrap_err(), "VS Unisystem isn't implemented yet.");
}

#[test]
fn defaults_are_nes_with_chr_work_ram() {
    let defaults = CartridgeHeader::defaults();
    assert_eq!(defaults.console_type, Some(ConsoleType::Nes));
    assert_eq!(defaults.chr_work_ram_size, Some(8192));
    assert_eq!(defaults.chr_save_ram_size, Some(0));
    assert_eq!(defaults.mapper_number, None);
}

#[test]
fn header_builder_round_trip() {
    let mut builder = CartridgeHeaderBuilder::new();
    builder.mapper_number(4).submapper_number(1).prg_rom_size(1024).console_type(ConsoleType::Nes);
    let header = builder.build();
    let rebuilt = header.into_builder().build();
    assert_eq!(rebuilt.mapper_number, Some(4));
    assert_eq!(rebuilt.submapper_number, Some(1));
    assert_eq!(rebuilt.prg_rom_size, Some(1024));
    assert_eq!(rebuilt.console_type, Some(ConsoleType::Nes));
    assert_eq!(rebuilt.chr_rom_size, None);
}

#[test]
fn console_type_texts() {
    assert_eq!(ConsoleType::Nes.to_string(), "NES");
    assert_eq!(ConsoleType::VsUnisystem.to_string(), "VS Unisystem");
    assert_eq!(ConsoleType::PlayChoice10.to_string(), "Play Choice 10");
    assert_eq!(ConsoleType::Extended.to_string(), "Extended");
}

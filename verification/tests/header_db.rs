use reznez::cartridge::cartridge_header::{CartridgeHeader, CartridgeHeaderBuilder};
use reznez::cartridge::header_db::HeaderDb;
use reznez::cartridge::Cartridge;

fn header(full_hash: u32, prg_rom_hash: u32, mapper_number: u16) -> CartridgeHeader {
    let mut builder = CartridgeHeaderBuilder::new();
    builder.full_hash(full_hash).prg_rom_hash(prg_rom_hash).mapper_number(mapper_number).submapper_number(0);
    builder.build()
}

fn ines_cartridge(mapper_low_nybble: u8) -> Cartridge {
    let mut rom = vec![0x4E, 0x45, 0x53, 0x1A, 0, 0, mapper_low_nybble << 4, 0];
    rom.extend_from_slice(b"ripper\0\0");
    Cartridge::load("db".to_string(), &rom).unwrap()
}

#[test]
fn header_found_by_full_hash_then_prg_hash() {
    let db = HeaderDb::from_headers(&[header(100, 200, 1), header(101, 201, 2)]);
    let cartridge = ines_cartridge(1);
    let by_full = db.header_from_db(&cartridge, 100, 999, 1, None).unwrap();
    assert_eq!(by_full.mapper_number, Some(1));
    let by_prg = db.header_from_db(&cartridge, 999, 201, 2, None).unwrap();
    assert_eq!(by_prg.mapper_number, Some(2));
    assert!(db.header_from_db(&cartridge, 999, 999, 1, None).is_none());
}

#[test]
fn missing_rom_submapper_overrides_when_mapper_matches() {
    // The first missing-ROM row: full hash 1731018083, PRG hash 3047829474, mapper 3, submapper 1.
    let db = HeaderDb::from_headers(&[header(1731018083, 5, 3)]);
    let mapper_3 = ines_cartridge(3);
    let found = db.header_from_db(&mapper_3, 1731018083, 5, 3, None).unwrap();
    assert_eq!(found.submapper_number, Some(1));
    let mapper_1 = ines_cartridge(1);
    let kept = db.header_from_db(&mapper_1, 1731018083, 5, 1, None).unwrap();
    assert_eq!(kept.submapper_number, Some(0));
}

#[test]
fn missing_submapper_number_lookup() {
    let db = HeaderDb::from_headers(&[]);
    assert_eq!(db.missing_submapper_number(1731018083, 7), Some((3, 1, 1731018083, 7)));
    assert_eq!(db.missing_submapper_number(7, 3047829474), Some((3, 1, 7, 3047829474)));
    assert_eq!(db.missing_submapper_number(7, 7), None);
}

const DATABASE: &str = r#"<?xml version="1.0" encoding="UTF-8"?>
<nes20db date="2024-01-01">
  <!-- A comment is no game. -->
  <game>
    <prgrom size="32768" crc32="DEADBEEF"/>
    <rom size="40976" crc32="0000abcd"/>
    <pcb mapper="1" submapper="0" mirroring="V" battery="0"/>
    <chrrom size="8192" crc32="12345678"/>
    <prgram size="8192"/>
  </game>
  <game>
    <prgrom size="16384" crc32="00000002"/>
    <rom size="16400" crc32="00000001"/>
    <pcb mapper="2" submapper="1"/>
  </game>
</nes20db>
"#;

#[test]
fn load_reads_games_from_xml() {
    let db = HeaderDb::load(DATABASE);
    let cartridge = ines_cartridge(1);
    let first = db.header_from_db(&cartridge, 0xABCD, 0, 1, None).unwrap();
    assert_eq!(first.mapper_number, Some(1));
    assert_eq!(first.submapper_number, Some(0));
    assert_eq!(first.prg_rom_size, Some(32768));
    assert_eq!(first.prg_rom_hash, Some(0xDEADBEEF));
    assert_eq!(first.chr_rom_size, Some(8192));
    assert_eq!(first.prg_work_ram_size, Some(8192));
    assert_eq!(first.prg_save_ram_size, None);
    let second = db.header_from_db(&cartridge, 99, 2, 2, None).unwrap();
    assert_eq!(second.mapper_number, Some(2));
    assert_eq!(second.full_hash, Some(1));
    assert_eq!(second.chr_rom_size, None);
}

#[test]
fn try_load_refuses_bad_xml_and_malformed_games() {
    assert!(HeaderDb::try_load(DATABASE).is_some());
    assert!(HeaderDb::try_load("<nes20db><game>").is_none());
    let missing_pcb = r#"<db><game><prgrom size="1" crc32="1"/><rom crc32="2"/></game></db>"#;
    assert!(HeaderDb::try_load(missing_pcb).is_none());
    let bad_hash = r#"<db><game><prgrom size="1" crc32="xyz"/><rom crc32="2"/><pcb mapper="0" submapper="0"/></game></db>"#;
    assert!(HeaderDb::try_load(bad_hash).is_none());
    let size_without_value = r#"<db><game><prgrom size="1" crc32="1"/><rom crc32="2"/><pcb mapper="0" submapper="0"/><prgram/></game></db>"#;
    assert!(HeaderDb::try_load(size_without_value).is_none());
    let no_games = "<db><other/></db>";
    assert!(HeaderDb::try_load(no_games).is_some());
}

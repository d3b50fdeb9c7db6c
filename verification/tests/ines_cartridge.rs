use reznez::cartridge::Cartridge;
use reznez::ppu::name_table_mirroring::NameTableMirroring;

fn rom(header_6: u8, header_7: u8, ripper: &[u8; 7], prg_chunks: u8, chr_chunks: u8, title: &[u8]) -> Vec<u8> {
    let mut rom = vec![0x4E, 0x45, 0x53, 0x1A, prg_chunks, chr_chunks, header_6, header_7];
    rom.extend_from_slice(ripper);
    rom.push(0);
    for chunk in 0..prg_chunks {
        rom.extend(std::iter::repeat(0x10 + chunk).take(0x4000));
    }
    for chunk in 0..chr_chunks {
        rom.extend((0..0x2000).map(|i: usize| if i < 0x1000 { 0x20 + chunk } else { 0x30 + chunk }));
    }
    rom.extend_from_slice(title);
    rom
}

#[test]
fn load_reads_header_and_chunks() {
    let data = rom(0x21, 0x40, b"ripper\x01", 2, 1, &[]);
    let cartridge = Cartridge::load("game".to_string(), &data).unwrap();
    assert_eq!(cartridge.name(), "game");
    assert_eq!(cartridge.mapper_number(), 0x42);
    assert_eq!(cartridge.name_table_mirroring(), NameTableMirroring::Vertical);
    assert_eq!(cartridge.prg_rom_chunks().len(), 2);
    assert!(cartridge.prg_rom_chunks()[0].iter().all(|&b| b == 0x10));
    assert!(cartridge.prg_rom_chunks()[1].iter().all(|&b| b == 0x11));
    let prg_rom = cartridge.prg_rom();
    assert_eq!(prg_rom.len(), 0x8000);
    assert_eq!(prg_rom[0x3FFF], 0x10);
    assert_eq!(prg_rom[0x4000], 0x11);
    assert_eq!(cartridge.chr_rom_chunks().len(), 1);
    assert_eq!(cartridge.chr_rom().len(), 0x2000);
}

#[test]
fn load_splits_chr_into_halves() {
    let data = rom(0, 0, b"abcdefg", 1, 2, &[]);
    let cartridge = Cartridge::load("halves".to_string(), &data).unwrap();
    assert_eq!(cartridge.name_table_mirroring(), NameTableMirroring::Horizontal);
    let halves = cartridge.chr_rom_half_chunks();
    assert_eq!(halves.len(), 4);
    assert!(halves[0].iter().all(|&b| b == 0x20));
    assert!(halves[1].iter().all(|&b| b == 0x30));
    assert!(halves[2].iter().all(|&b| b == 0x21));
    assert!(halves[3].iter().all(|&b| b == 0x31));
    assert!(halves.iter().all(|half| half.len() == 0x1000));
}

#[test]
fn load_four_screen() {
    let data = rom(0b0000_1001, 0, b"abcdefg", 1, 0, &[]);
    let cartridge = Cartridge::load("four".to_string(), &data).unwrap();
    assert_eq!(cartridge.name_table_mirroring(), NameTableMirroring::FourScreen);
}

#[test]
fn load_accepts_a_title_of_128_bytes() {
    let mut title = b"My Game".to_vec();
    title.resize(128, 0);
    let data = rom(0, 0, b"abcdefg", 1, 0, &title);
    assert!(Cartridge::load("titled".to_string(), &data).is_ok());
}

#[test]
fn load_rejects_non_ines() {
    let data = vec![0x4E, 0x45, 0x53, 0x00, 0, 0, 0, 0, 0, 0, 0, 0, 0, 0, 0, 0];
    let error = Cartridge::load("bad".to_string(), &data).unwrap_err();
    assert_eq!(error, "Cannot load non-iNES ROM. Found [78, 69, 83, 0] but need [78, 69, 83, 26].");
}

#[test]
fn load_rejects_title_of_wrong_length() {
    let data = rom(0, 0, b"abcdefg", 1, 0, &[1, 2, 3]);
    let error = Cartridge::load("short".to_string(), &data).unwrap_err();
    assert_eq!(error, "Title must be empty or 127 or 128 bytes, but was 3 bytes.");
}

#[test]
fn load_rejects_ripper_name_that_is_not_utf8() {
    let data = rom(0, 0, b"abc\xFFefg", 1, 0, &[]);
    let error = Cartridge::load("ripped".to_string(), &data).unwrap_err();
    assert!(error.contains("utf-8"));
}

#[test]
fn load_rejects_title_that_is_not_utf8() {
    let mut title = vec![0xFFu8];
    title.resize(127, 0);
    let data = rom(0, 0, b"abcdefg", 1, 0, &title);
    let error = Cartridge::load("titled".to_string(), &data).unwrap_err();
    assert!(error.contains("utf-8"));
}

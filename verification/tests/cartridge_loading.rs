use reznez::cartridge::cartridge::Cartridge;
use reznez::cartridge::cartridge_metadata::{CartridgeMetadataBuilder, ConsoleType};
use reznez::ppu::name_table_mirroring::NameTableMirroring;

fn metadata(prg_rom_size: u32, chr_rom_size: u32) -> reznez::cartridge::cartridge_metadata::CartridgeMetadata {
    let mut builder = CartridgeMetadataBuilder::new();
    builder.prg_rom_size(prg_rom_size).chr_rom_size(chr_rom_size);
    builder.build()
}

fn image(prg: usize, chr: usize, title: &[u8]) -> Vec<u8> {
    let mut data = vec![0u8; 16];
    data.extend(std::iter::repeat(0xAA).take(prg));
    data.extend(std::iter::repeat(0xBB).take(chr));
    data.extend_from_slice(title);
    data
}

#[test]
fn load_splits_prg_and_chr() {
    let header = metadata(0x4000, 0x2000);
    let data = image(0x4000, 0x2000, &[]);
    let cartridge = Cartridge::load("roms/game.nes", &header, &data, true).unwrap();
    assert_eq!(cartridge.prg_rom().len(), 0x4000);
    assert!(cartridge.prg_rom().iter().all(|&b| b == 0xAA));
    assert_eq!(cartridge.chr_rom().len(), 0x2000);
    assert!(cartridge.chr_rom().iter().all(|&b| b == 0xBB));
    assert_eq!(cartridge.prg_rom_size(), 0x4000);
    assert_eq!(cartridge.chr_rom_size(), 0x2000);
    assert!(cartridge.allow_saving());
    assert_eq!(cartridge.name(), "game");
    assert_eq!(cartridge.try_name(), Some("game".to_string()));
}

#[test]
fn load_cuts_chr_rom_short() {
    let header = metadata(0x4000, 0x2000);
    let data = image(0x4000, 0x100, &[]);
    let cartridge = Cartridge::load("game.nes", &header, &data, false).unwrap();
    assert_eq!(cartridge.chr_rom().len(), 0x100);
    assert!(!cartridge.allow_saving());
}

#[test]
fn load_refuses_short_prg_rom() {
    let header = metadata(0x8000, 0);
    let data = image(0x4000, 0, &[]);
    let error = Cartridge::load("roms/short.nes", &header, &data, false).unwrap_err();
    assert_eq!(error, "ROM short.nes was too short (claimed to have 32KiB PRG ROM).");
}

#[test]
fn try_load_without_file_name_for_short_rom() {
    let header = metadata(0x8000, 0);
    let data = image(0x10, 0, &[]);
    assert!(Cartridge::try_load("/", &header, &data, false).is_none());
    assert!(Cartridge::try_load("a.nes", &header, &data, false).unwrap().is_err());
}

#[test]
fn load_reads_title_before_nul() {
    let mut title = b"Title".to_vec();
    title.resize(127, 0);
    let header = metadata(0x4000, 0);
    let data = image(0x4000, 0, &title);
    assert!(Cartridge::load("t.nes", &header, &data, false).is_ok());
}

#[test]
fn load_refuses_title_of_wrong_length() {
    let header = metadata(0x4000, 0);
    let data = image(0x4000, 0, b"abc");
    let error = Cartridge::load("t.nes", &header, &data, false).unwrap_err();
    assert_eq!(error, "Title must be empty or 127 or 128 bytes, but was 3 bytes.");
}

#[test]
fn cartridge_path_names() {
    let header = metadata(0, 0);
    let data = image(0, 0, &[]);
    let cartridge = Cartridge::load("dir/game.nes", &header, &data, false).unwrap();
    let path = cartridge.path();
    assert_eq!(path.rom_name(), "game");
    assert_eq!(path.rom_file_name(), "game.nes");
    assert_eq!(path.try_rom_name(), Some("game".to_string()));
    assert_eq!(path.try_rom_file_name(), Some("game.nes".to_string()));
    assert_eq!(path.to_prg_save_ram_file_path(), "saveram/game.prg.saveram");
    assert_eq!(path.try_prg_save_ram_file_path(), Some("saveram/game.prg.saveram".to_string()));
}

#[test]
fn cartridge_path_without_file_name() {
    let header = metadata(0, 0);
    let data = image(0, 0, &[]);
    let cartridge = Cartridge::load("/", &header, &data, false).unwrap();
    assert_eq!(cartridge.path().try_rom_name(), None);
    assert_eq!(cartridge.path().try_rom_file_name(), None);
    assert_eq!(cartridge.path().try_prg_save_ram_file_path(), None);
    assert_eq!(cartridge.try_name(), None);
}

#[test]
fn metadata_builder_mapper_without_submapper_0() {
    let mut builder = CartridgeMetadataBuilder::new();
    builder.mapper_and_submapper_number(4, Some(0), &[4, 7]);
    let metadata = builder.build();
    assert_eq!(metadata.mapper_number(), Some(4));
    assert_eq!(metadata.submapper_number(), None);

    let mut builder = CartridgeMetadataBuilder::new();
    builder.mapper_and_submapper_number(5, Some(0), &[4, 7]);
    let metadata = builder.build();
    assert_eq!(metadata.submapper_number(), Some(0));
}

#[test]
fn metadata_round_trips_through_builder() {
    let mut builder = CartridgeMetadataBuilder::new();
    builder
        .name_table_mirroring(NameTableMirroring::Vertical)
        .prg_rom_size(0x8000)
        .console_type(ConsoleType::NesFamiconDendy);
    let metadata = builder.build();
    let again = metadata.clone().into_builder().build();
    assert_eq!(again.name_table_mirroring(), Some(NameTableMirroring::Vertical));
    assert_eq!(again.prg_rom_size(), Some(0x8000));
    assert!(matches!(again.console_type(), Some(ConsoleType::NesFamiconDendy)));
    assert_eq!(again.chr_rom_size(), None);
}

#[test]
fn metadata_setters() {
    let mut metadata = CartridgeMetadataBuilder::new().build();
    metadata.set_prg_rom_hash(7);
    metadata.set_chr_rom_hash(9);
    metadata.set_name_table_mirroring(NameTableMirroring::Horizontal);
    assert_eq!(metadata.prg_rom_hash(), Some(7));
    assert_eq!(metadata.chr_rom_hash(), Some(9));
    assert_eq!(metadata.name_table_mirroring(), Some(NameTableMirroring::Horizontal));
}

#[test]
fn console_type_names() {
    assert_eq!(ConsoleType::basic(0).to_string(), "NES/Famicon/Dendy");
    assert_eq!(ConsoleType::extended(0, 5).to_string(), "NES/Famicon/Dendy");
    assert_eq!(ConsoleType::Vt369.to_string(), "V.R. Technology VT369");
    assert_eq!(ConsoleType::PlayChoice10.to_string(), "Play Choice 10");
}

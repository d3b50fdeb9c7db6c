use reznez::assembler::assembler::{assembled_cartridge_path, demo_cartridge, try_assembled_cartridge_path, Cartridge, Metadata, MetadataBuilder, Mirroring, PrgRom};
use reznez::assembler::raw_mem::RawMem;

#[test]
fn demo_cartridge_bytes() {
    let bytes = demo_cartridge().to_bytes();
    assert_eq!(&bytes[0..16], &[0x4E, 0x45, 0x53, 0x1A, 2, 1, 0, 0, 0, 0, 0, 0, 0, 0, 0, 0]);
    assert_eq!(bytes.len(), 16 + 32 * 1024 + 8 * 1024);
    assert!(bytes[16..16 + 32 * 1024].iter().all(|&b| b == 0xEA));
    assert!(bytes[16 + 32 * 1024..].iter().all(|&b| b == 0));
}

#[test]
fn header_holds_mapper_and_mirroring() {
    let metadata = MetadataBuilder::new()
        .mapper(0x4A)
        .mirroring(Mirroring::Vertical)
        .prg_rom_size(16 * 1024)
        .chr_rom_size(0)
        .build();
    let bytes = Cartridge::new(metadata).to_bytes();
    assert_eq!(&bytes[0..8], &[0x4E, 0x45, 0x53, 0x1A, 1, 0, 0xA1, 0x40]);
    assert_eq!(bytes.len(), 16 + 16 * 1024);
}

#[test]
fn nrom_metadata() {
    let metadata = Metadata::nrom_no_wram();
    assert_eq!(metadata.mapper, 0);
    assert_eq!(metadata.mirroring, Mirroring::Horizontal);
    assert_eq!(metadata.prg_rom_size, 32768);
    assert_eq!(metadata.chr_rom_size, 8192);
}

#[test]
fn prg_rom_writes_in_order() {
    let metadata = MetadataBuilder::new().mapper(0).mirroring(Mirroring::Horizontal).prg_rom_size(16 * 1024).chr_rom_size(0).build();
    let mut cartridge = Cartridge::new(metadata);
    cartridge.prg_rom.set_next_raw(0xA9);
    cartridge.prg_rom.set_next_raw(0x01);
    cartridge.prg_rom.set_next_raw_n(0xEA, 3);
    let bytes = cartridge.to_bytes();
    assert_eq!(&bytes[16..22], &[0xA9, 0x01, 0xEA, 0xEA, 0xEA, 0x00]);
    let _fresh = PrgRom::new(16 * 1024);
}

#[test]
fn raw_mem_reads_unset_bytes_as_fill() {
    let mut mem = RawMem::new(4);
    assert_eq!(mem.size(), 4);
    mem.set_at(2, 0x7F);
    assert_eq!(mem.resolve(), vec![0, 0, 0x7F, 0]);
}

#[test]
fn assembled_cartridge_goes_under_assembled() {
    assert_eq!(assembled_cartridge_path("src/demo.asm"), "assembled/demo.nes");
    assert_eq!(try_assembled_cartridge_path("demo"), Some("assembled/demo.nes".to_string()));
    assert_eq!(try_assembled_cartridge_path("/"), None);
}

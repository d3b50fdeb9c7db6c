use reznez::cartridge::cartridge_metadata::{
    CartridgeMetadata, CartridgeMetadataBuilder, ConsoleType, ExpansionDevice, TimingMode, VsHardwareType,
};
use reznez::cartridge::resolved_metadata::MetadataResolver;
use reznez::ppu::name_table_mirroring::NameTableMirroring;

fn empty() -> CartridgeMetadata {
    CartridgeMetadataBuilder::new().build()
}

fn cartridge_metadata() -> CartridgeMetadata {
    let mut builder = CartridgeMetadataBuilder::new();
    builder
        .mapper_and_submapper_number(1, Some(2), &[])
        .full_hash(11)
        .prg_rom_hash(12)
        .chr_rom_hash(13)
        .prg_rom_size(0x8000)
        .chr_rom_size(0)
        .has_persistent_memory(false)
        .name_table_mirroring(NameTableMirroring::Vertical)
        .console_type(ConsoleType::NesFamiconDendy);
    builder.build()
}

#[test]
fn resolve_takes_cartridge_values_and_defaults() {
    let resolver = MetadataResolver {
        hard_coded_overrides: empty(),
        cartridge: cartridge_metadata(),
        database: empty(),
        database_extension: empty(),
        layout_supports_prg_ram: true,
    };
    let resolved = resolver.resolve();
    assert_eq!(resolved.mapper_number, 1);
    assert_eq!(resolved.submapper_number, Some(2));
    assert_eq!(resolved.name_table_mirroring, Some(NameTableMirroring::Vertical));
    assert!(!resolved.has_persistent_memory);
    assert_eq!(resolved.full_hash, 11);
    assert_eq!(resolved.prg_rom_hash, 12);
    assert_eq!(resolved.chr_rom_hash, 13);
    assert_eq!(resolved.prg_rom_size, 0x8000);
    assert_eq!(resolved.chr_rom_size, 0);
    assert_eq!(resolved.prg_work_ram_size, 8192);
    assert_eq!(resolved.prg_save_ram_size, 0);
    assert_eq!(resolved.chr_work_ram_size, 8192);
    assert_eq!(resolved.chr_save_ram_size, 0);
    assert_eq!(resolved.console_type, ConsoleType::NesFamiconDendy);
    assert!(matches!(resolved.region_timing_mode, TimingMode::Ntsc));
    assert_eq!(resolved.miscellaneous_rom_count, 0);
    assert!(matches!(resolved.default_expansion_device, ExpansionDevice::StandardNesFamicomControllers));
    assert!(resolved.vs.is_none());
}

#[test]
fn resolve_prefers_overrides_then_cartridge_then_database() {
    let mut overrides = CartridgeMetadataBuilder::new();
    overrides.name_table_mirroring(NameTableMirroring::Horizontal);
    let mut database = CartridgeMetadataBuilder::new();
    database.mapper_and_submapper_number(9, Some(9), &[]).prg_work_ram_size(0x2000).chr_save_ram_size(0x400);
    let resolver = MetadataResolver {
        hard_coded_overrides: overrides.build(),
        cartridge: cartridge_metadata(),
        database: database.build(),
        database_extension: empty(),
        layout_supports_prg_ram: false,
    };
    let resolved = resolver.resolve();
    assert_eq!(resolved.name_table_mirroring, Some(NameTableMirroring::Horizontal));
    assert_eq!(resolved.mapper_number, 1);
    assert_eq!(resolved.prg_work_ram_size, 0x2000);
    assert_eq!(resolved.chr_save_ram_size, 0x400);
    // CHR save RAM is known, so the defaults give no CHR work RAM.
    assert_eq!(resolved.chr_work_ram_size, 0);
}

#[test]
fn defaults_without_prg_ram_layout() {
    let resolver = MetadataResolver {
        hard_coded_overrides: empty(),
        cartridge: cartridge_metadata(),
        database: empty(),
        database_extension: empty(),
        layout_supports_prg_ram: false,
    };
    let defaults = resolver.defaults();
    assert_eq!(defaults.prg_work_ram_size(), Some(0));
    assert_eq!(defaults.chr_work_ram_size(), Some(8192));
    assert!(defaults.vs_hardware_type().is_none());
    assert!(defaults.console_type().is_none());
}

#[test]
fn defaults_for_play_choice_give_vs_hardware() {
    let mut cartridge = cartridge_metadata();
    cartridge.console_type = Some(ConsoleType::PlayChoice10);
    let resolver = MetadataResolver {
        hard_coded_overrides: empty(),
        cartridge,
        database: empty(),
        database_extension: empty(),
        layout_supports_prg_ram: true,
    };
    let defaults = resolver.defaults();
    assert!(matches!(defaults.vs_hardware_type(), Some(VsHardwareType::Unisystem)));
    assert!(defaults.vs_ppu_type().is_some());
    let resolved = resolver.resolve();
    assert!(resolved.vs.is_some());
}

#[test]
fn resolved_metadata_text() {
    let resolver = MetadataResolver {
        hard_coded_overrides: empty(),
        cartridge: cartridge_metadata(),
        database: empty(),
        database_extension: empty(),
        layout_supports_prg_ram: true,
    };
    let text = resolver.resolve().to_string();
    assert_eq!(
        text,
        "Mapper: 1 (Submapper: 2)\n\
         PRG ROM:   32KiB, WorkRAM:    8KiB, SaveRAM:    0KiB\n\
         CHR ROM:    0KiB, WorkRAM:    8KiB, SaveRAM:    0KiB\n"
    );
}

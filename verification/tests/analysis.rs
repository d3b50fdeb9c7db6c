use reznez::analysis::cartridge_db::is_analyzed_rom_path;

#[test]
fn only_nes_files_that_are_not_ignored() {
    assert!(is_analyzed_rom_path("roms/game.nes"));
    assert!(is_analyzed_rom_path("roms/#ignored/game.nes"));
    assert!(!is_analyzed_rom_path("roms/game#ignored.nes"));
    assert!(!is_analyzed_rom_path("roms/game.zip"));
    assert!(!is_analyzed_rom_path("roms/nes"));
    assert!(!is_analyzed_rom_path("roms"));
    assert!(is_analyzed_rom_path("ignored.nes"));
}

pub mod cartridge_db;

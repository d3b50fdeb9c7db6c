pub mod name_table_mirroring;
pub mod rgb;

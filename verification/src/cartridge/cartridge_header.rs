use vstd::prelude::*;

use crate::ppu::name_table_mirroring::NameTableMirroring;
use crate::util::text::{decimal, push_decimal, push_text, string_from_chars};

verus! {

pub const KIBIBYTE: u32 = 1024;
pub const PRG_ROM_CHUNK_LENGTH: usize = 16 * 1024;
pub const CHR_ROM_CHUNK_LENGTH: usize = 8 * 1024;

/// The text of the error for a header that doesn't start with "NES\x1A": it lists the four bytes
/// found, in decimal, and the four needed.
pub open spec fn non_ines_message(found: Seq<u8>) -> Seq<char> {
    "Cannot load non-iNES ROM. Found ["@ + decimal(found[0] as nat) + ", "@ + decimal(found[1] as nat)
        + ", "@ + decimal(found[2] as nat) + ", "@ + decimal(found[3] as nat)
        + "] but need [78, 69, 83, 26]."@
}

/// The error for a header that doesn't start with "NES\x1A", listing the four bytes found.
pub(crate) fn non_ines_error(found: &[u8]) -> (message: String)
    requires
        found@.len() == 4,
    ensures
        message@ == non_ines_message(found@),
{
    let mut chars: Vec<char> = Vec::new();
    push_text(&mut chars, "Cannot load non-iNES ROM. Found [");
    push_decimal(&mut chars, found[0] as u64);
    push_text(&mut chars, ", ");
    push_decimal(&mut chars, found[1] as u64);
    push_text(&mut chars, ", ");
    push_decimal(&mut chars, found[2] as u64);
    push_text(&mut chars, ", ");
    push_decimal(&mut chars, found[3] as u64);
    push_text(&mut chars, "] but need [78, 69, 83, 26].");
    string_from_chars(&chars)
}

/// The header starts with the four bytes "NES\x1A".
pub open spec fn is_ines(header: Seq<u8>) -> bool {
    header.len() >= 4 && header[0] == 0x4E && header[1] == 0x45 && header[2] == 0x53 && header[3] == 0x1A
}

/// Byte 6 bit 2: a trainer precedes the PRG ROM.
pub open spec fn trainer_enabled(header: Seq<u8>) -> bool {
    header[6] & 0b0000_0100 != 0
}

/// Byte 7 bit 1: a PlayChoice-10 cartridge.
pub open spec fn play_choice_enabled(header: Seq<u8>) -> bool {
    header[7] & 0b0000_0010 != 0
}

/// Byte 7 bit 0: a VS Unisystem cartridge.
pub open spec fn vs_unisystem_enabled(header: Seq<u8>) -> bool {
    header[7] & 0b0000_0001 != 0
}

/// Byte 7 bits 3 and 2 equal to 0b10 mark an NES 2.0 header.
pub open spec fn ines2_present(header: Seq<u8>) -> bool {
    (header[7] >> 2u8) & 0b11 == 0b10
}

/// The RAM size that a 4-bit size field encodes: 0 for 0, otherwise 64 shifted left by the field.
pub open spec fn ram_size(field: u8) -> u32 {
    if field > 0 { (64u32 << (field as u32)) } else { 0 }
}

/// The 12-bit mapper number: byte 8's low nybble (NES 2.0 only), then byte 7's and byte 6's high nybbles.
pub open spec fn spec_mapper_number(header: Seq<u8>) -> u16 {
    let high: int = if ines2_present(header) { (header[8] & 0xF) as int } else { 0 };
    (high * 256 + (header[7] >> 4u8) * 16 + (header[6] >> 4u8)) as u16
}

/// The header that a valid 16-byte iNES header describes.
pub open spec fn spec_parsed_header(header: Seq<u8>, full_hash: u32) -> CartridgeHeader {
    let ines2 = ines2_present(header);
    let four_screen = header[6] & 0b0000_1000 != 0;
    let vertical = header[6] & 0b0000_0001 != 0;
    CartridgeHeader {
        mapper_number: Some(spec_mapper_number(header)),
        submapper_number: if ines2 { Some(header[8] >> 4u8) } else { None },
        name_table_mirroring: if four_screen {
            None
        } else if vertical {
            Some(NameTableMirroring::Vertical)
        } else {
            Some(NameTableMirroring::Horizontal)
        },
        has_persistent_memory: Some(header[6] & 0b0000_0010 != 0),
        console_type: None,
        full_hash: Some(full_hash),
        prg_rom_hash: None,
        prg_rom_size: Some((header[4] * 0x4000) as u32),
        prg_work_ram_size: if ines2 { Some(ram_size(header[10] & 0xF)) } else { None },
        prg_save_ram_size: if ines2 { Some(ram_size(header[10] >> 4u8)) } else { None },
        chr_rom_size: Some((header[5] * 0x2000) as u32),
        chr_work_ram_size: if ines2 { Some(ram_size(header[11] & 0xF)) } else { None },
        chr_save_ram_size: if ines2 { Some(ram_size(header[11] >> 4u8)) } else { None },
    }
}

/// The metadata that a cartridge's header (or the header database) gives.
#[derive(Clone, Copy, Debug)]
pub struct CartridgeHeader {
    pub mapper_number: Option<u16>,
    pub submapper_number: Option<u8>,

    pub name_table_mirroring: Option<NameTableMirroring>,
    pub has_persistent_memory: Option<bool>,
    pub console_type: Option<ConsoleType>,

    pub full_hash: Option<u32>,
    pub prg_rom_hash: Option<u32>,

    pub prg_rom_size: Option<u32>,
    pub prg_work_ram_size: Option<u32>,
    pub prg_save_ram_size: Option<u32>,

    pub chr_rom_size: Option<u32>,
    pub chr_work_ram_size: Option<u32>,
    pub chr_save_ram_size: Option<u32>,
}

proof fn lemma_nybbles(b: u8)
    ensures
        b >> 4u8 < 16,
        b & 0xF < 16,
        (b >> 2u8) & 0b11 < 4,
{
    assert(b >> 4u8 < 16) by (bit_vector);
    assert(b & 0xF < 16) by (bit_vector);
    assert((b >> 2u8) & 0b11 < 4) by (bit_vector);
}

fn ram_size_from_field(field: u8) -> (size: u32)
    requires field < 16,
    ensures size == ram_size(field),
{
    if field > 0 {
        64u32 << (field as u32)
    } else {
        0
    }
}

impl CartridgeHeader {
    /// Parses a 16-byte iNES (or NES 2.0) header. Fails for a header without the iNES magic
    /// bytes, and for the features not supported yet: trainers, PlayChoice and VS Unisystem.
    pub fn parse(header: [u8; 16], full_hash: u32) -> (result: Result<CartridgeHeader, String>)
        ensures
            result is Ok <==> (is_ines(header@) && !trainer_enabled(header@)
                && !play_choice_enabled(header@) && !vs_unisystem_enabled(header@)),
            result matches Ok(parsed) ==> parsed == spec_parsed_header(header@, full_hash),
            result matches Err(message) ==> message@ == (
                if !is_ines(header@) {
                    non_ines_message(header@.subrange(0, 4))
                } else if trainer_enabled(header@) {
                    "Trainer isn't implemented yet."@
                } else if play_choice_enabled(header@) {
                    "PlayChoice isn't implemented yet."@
                } else {
                    "VS Unisystem isn't implemented yet."@
                }),
    {
        let mut builder = CartridgeHeaderBuilder::new();
        builder.full_hash(full_hash);

        if !(header[0] == 0x4E && header[1] == 0x45 && header[2] == 0x53 && header[3] == 0x1A) {
            let found = [header[0], header[1], header[2], header[3]];
            assert(found@ == header@.subrange(0, 4));
            return Err(non_ines_error(&found));
        }

        builder
            .prg_rom_size(header[4] as u32 * PRG_ROM_CHUNK_LENGTH as u32)
            .chr_rom_size(header[5] as u32 * CHR_ROM_CHUNK_LENGTH as u32);

        let h6 = header[6];
        let h7 = header[7];
        let low_mapper_number = h6 >> 4;
        let four_screen = h6 & 0b0000_1000 != 0;
        let trainer_enabled = h6 & 0b0000_0100 != 0;
        let has_persistent_memory = h6 & 0b0000_0010 != 0;
        let vertical_mirroring = h6 & 0b0000_0001 != 0;
        let mid_mapper_number = h7 >> 4;
        let ines2 = (h7 >> 2) & 0b11;
        let play_choice_enabled = h7 & 0b0000_0010 != 0;
        let vs_unisystem_enabled = h7 & 0b0000_0001 != 0;
        proof {
            lemma_nybbles(h6);
            lemma_nybbles(h7);
            lemma_nybbles(header[8]);
            lemma_nybbles(header[10]);
            lemma_nybbles(header[11]);
        }

        builder.has_persistent_memory(has_persistent_memory);
        let ines2_present = ines2 == 0b10;
        if trainer_enabled {
            proof { reveal_strlit("Trainer isn't implemented yet."); }
            return Err(String::from_str("Trainer isn't implemented yet."));
        }

        let mut high_mapper_number: u8 = 0b0000;
        if ines2_present {
            high_mapper_number = header[8] & 0b1111;
            builder.submapper_number(header[8] >> 4);
            let prg_work = ram_size_from_field(header[10] & 0xF);
            builder.prg_work_ram_size(prg_work);
            let prg_save = ram_size_from_field(header[10] >> 4);
            builder.prg_save_ram_size(prg_save);

            let chr_work = ram_size_from_field(header[11] & 0xF);
            builder.chr_work_ram_size(chr_work);
            let chr_save = ram_size_from_field(header[11] >> 4);
            builder.chr_save_ram_size(chr_save);
        }

        let mapper_number: u16 =
            ((high_mapper_number as u16) << 8) | ((mid_mapper_number as u16) << 4) | (low_mapper_number as u16);
        assert(((high_mapper_number as u16) << 8u16) | ((mid_mapper_number as u16) << 4u16) | (low_mapper_number as u16)
            == (high_mapper_number * 256 + mid_mapper_number * 16 + low_mapper_number) as u16) by (bit_vector)
            requires high_mapper_number < 16, mid_mapper_number < 16, low_mapper_number < 16;
        builder.mapper_number(mapper_number);

        if play_choice_enabled {
            proof { reveal_strlit("PlayChoice isn't implemented yet."); }
            return Err(String::from_str("PlayChoice isn't implemented yet."));
        }

        if vs_unisystem_enabled {
            proof { reveal_strlit("VS Unisystem isn't implemented yet."); }
            return Err(String::from_str("VS Unisystem isn't implemented yet."));
        }

        if four_screen {
            // Four screen mirroring isn't a real mirroring, the mapper will have to define what it means.
        } else if vertical_mirroring {
            builder.name_table_mirroring(NameTableMirroring::Vertical);
        } else {
            builder.name_table_mirroring(NameTableMirroring::Horizontal);
        }

        Ok(builder.build())
    }

    /// The values assumed for a cartridge when nothing else gives them.
    pub fn defaults() -> (header: Self)
        ensures
            header == (CartridgeHeader {
                console_type: Some(ConsoleType::Nes),
                chr_work_ram_size: Some(8192u32),
                chr_save_ram_size: Some(0),
                mapper_number: None,
                submapper_number: None,
                name_table_mirroring: None,
                has_persistent_memory: None,
                full_hash: None,
                prg_rom_hash: None,
                prg_rom_size: None,
                prg_work_ram_size: None,
                prg_save_ram_size: None,
                chr_rom_size: None,
            }),
    {
        Self {
            console_type: Some(ConsoleType::Nes),
            chr_work_ram_size: Some(8 * KIBIBYTE),
            chr_save_ram_size: Some(0),

            mapper_number: None,
            submapper_number: None,
            name_table_mirroring: None,
            has_persistent_memory: None,
            full_hash: None,
            prg_rom_hash: None,
            prg_rom_size: None,
            prg_work_ram_size: None,
            prg_save_ram_size: None,
            chr_rom_size: None,
        }
    }

    pub fn mapper_number(&self) -> (n: Option<u16>)
        ensures n == self.mapper_number,
    {
        self.mapper_number
    }

    pub fn submapper_number(&self) -> (n: Option<u8>)
        ensures n == self.submapper_number,
    {
        self.submapper_number
    }

    pub fn prg_rom_size(&self) -> (size: Option<u32>)
        ensures size == self.prg_rom_size,
    {
        self.prg_rom_size
    }

    pub fn prg_work_ram_size(&self) -> (size: Option<u32>)
        ensures size == self.prg_work_ram_size,
    {
        self.prg_work_ram_size
    }

    pub fn prg_save_ram_size(&self) -> (size: Option<u32>)
        ensures size == self.prg_save_ram_size,
    {
        self.prg_save_ram_size
    }

    pub fn chr_rom_size(&self) -> (size: Option<u32>)
        ensures size == self.chr_rom_size,
    {
        self.chr_rom_size
    }

    pub fn chr_work_ram_size(&self) -> (size: Option<u32>)
        ensures size == self.chr_work_ram_size,
    {
        self.chr_work_ram_size
    }

    pub fn chr_save_ram_size(&self) -> (size: Option<u32>)
        ensures size == self.chr_save_ram_size,
    {
        self.chr_save_ram_size
    }

    // This returns None if there is no mirroring specified OR if the cartridge specifies FourScreen.
    pub fn name_table_mirroring(&self) -> (mirroring: Option<NameTableMirroring>)
        ensures mirroring == self.name_table_mirroring,
    {
        self.name_table_mirroring
    }

    pub fn console_type(&self) -> (console_type: Option<ConsoleType>)
        ensures console_type == self.console_type,
    {
        self.console_type
    }

    /// Some CHR memory (ROM, work RAM or save RAM) is present.
    pub fn chr_present(&self) -> (present: bool)
        ensures
            present == ((self.chr_rom_size matches Some(s) && s > 0)
                || (self.chr_work_ram_size matches Some(s) && s > 0)
                || (self.chr_save_ram_size matches Some(s) && s > 0)),
    {
        if let Some(chr_rom) = self.chr_rom_size {
            if chr_rom > 0 {
                return true;
            }
        }

        if let Some(chr_work) = self.chr_work_ram_size {
            if chr_work > 0 {
                return true;
            }
        }

        if let Some(chr_save) = self.chr_save_ram_size {
            if chr_save > 0 {
                return true;
            }
        }

        false
    }

    pub fn set_prg_rom_hash(&mut self, prg_rom_hash: u32)
        ensures *final(self) == (CartridgeHeader { prg_rom_hash: Some(prg_rom_hash), ..*old(self) }),
    {
        self.prg_rom_hash = Some(prg_rom_hash);
    }

    pub fn set_submapper_number(&mut self, submapper_number: u8)
        ensures *final(self) == (CartridgeHeader { submapper_number: Some(submapper_number), ..*old(self) }),
    {
        self.submapper_number = Some(submapper_number);
    }

    pub fn set_console_type(&mut self, console_type: ConsoleType)
        ensures *final(self) == (CartridgeHeader { console_type: Some(console_type), ..*old(self) }),
    {
        self.console_type = Some(console_type);
    }

    /// The builder that starts from every field of this header.
    pub open spec fn spec_into_builder(self) -> CartridgeHeaderBuilder {
        (CartridgeHeaderBuilder {
            mapper_number: self.mapper_number,
            submapper_number: self.submapper_number,
            name_table_mirroring: self.name_table_mirroring,
            has_persistent_memory: self.has_persistent_memory,
            console_type: self.console_type,
            full_hash: self.full_hash,
            prg_rom_hash: self.prg_rom_hash,
            prg_rom_size: self.prg_rom_size,
            prg_work_ram_size: self.prg_work_ram_size,
            prg_save_ram_size: self.prg_save_ram_size,
            chr_rom_size: self.chr_rom_size,
            chr_work_ram_size: self.chr_work_ram_size,
            chr_save_ram_size: self.chr_save_ram_size,
        })
    }

    pub fn into_builder(self) -> (builder: CartridgeHeaderBuilder)
        ensures
            builder == self.spec_into_builder(),
    {
        CartridgeHeaderBuilder {
            mapper_number: self.mapper_number,
            submapper_number: self.submapper_number,

            name_table_mirroring: self.name_table_mirroring,
            has_persistent_memory: self.has_persistent_memory,
            console_type: self.console_type,

            full_hash: self.full_hash,
            prg_rom_hash: self.prg_rom_hash,

            prg_rom_size: self.prg_rom_size,
            prg_work_ram_size: self.prg_work_ram_size,
            prg_save_ram_size: self.prg_save_ram_size,

            chr_rom_size: self.chr_rom_size,
            chr_work_ram_size: self.chr_work_ram_size,
            chr_save_ram_size: self.chr_save_ram_size,
        }
    }
}

/// Collects the fields of a `CartridgeHeader`.
#[derive(Clone, Copy, Debug)]
pub struct CartridgeHeaderBuilder {
    pub mapper_number: Option<u16>,
    pub submapper_number: Option<u8>,

    pub name_table_mirroring: Option<NameTableMirroring>,
    pub has_persistent_memory: Option<bool>,
    pub console_type: Option<ConsoleType>,

    pub full_hash: Option<u32>,
    pub prg_rom_hash: Option<u32>,

    pub prg_rom_size: Option<u32>,
    pub prg_work_ram_size: Option<u32>,
    pub prg_save_ram_size: Option<u32>,

    pub chr_rom_size: Option<u32>,
    pub chr_work_ram_size: Option<u32>,
    pub chr_save_ram_size: Option<u32>,
}

impl CartridgeHeaderBuilder {
    /// The header with the fields given so far.
    pub open spec fn spec_build(self) -> CartridgeHeader {
        CartridgeHeader {
            mapper_number: self.mapper_number,
            submapper_number: self.submapper_number,
            name_table_mirroring: self.name_table_mirroring,
            has_persistent_memory: self.has_persistent_memory,
            console_type: self.console_type,
            full_hash: self.full_hash,
            prg_rom_hash: self.prg_rom_hash,
            prg_rom_size: self.prg_rom_size,
            prg_work_ram_size: self.prg_work_ram_size,
            prg_save_ram_size: self.prg_save_ram_size,
            chr_rom_size: self.chr_rom_size,
            chr_work_ram_size: self.chr_work_ram_size,
            chr_save_ram_size: self.chr_save_ram_size,
        }
    }

    pub fn new() -> (builder: Self)
        ensures
            builder == (CartridgeHeaderBuilder {
                mapper_number: None,
                submapper_number: None,
                name_table_mirroring: None,
                has_persistent_memory: None,
                console_type: None,
                full_hash: None,
                prg_rom_hash: None,
                prg_rom_size: None,
                prg_work_ram_size: None,
                prg_save_ram_size: None,
                chr_rom_size: None,
                chr_work_ram_size: None,
                chr_save_ram_size: None,
            }),
    {
        Self {
            mapper_number: None,
            submapper_number: None,

            name_table_mirroring: None,
            has_persistent_memory: None,
            console_type: None,

            full_hash: None,
            prg_rom_hash: None,

            prg_rom_size: None,
            prg_work_ram_size: None,
            prg_save_ram_size: None,

            chr_rom_size: None,
            chr_work_ram_size: None,
            chr_save_ram_size: None,
        }
    }

    pub fn mapper_number(&mut self, mapper_number: u16) -> (builder: &mut Self)
        ensures
            *builder == (CartridgeHeaderBuilder { mapper_number: Some(mapper_number), ..*old(self) }),
            *final(self) == *final(builder),
    {
        self.mapper_number = Some(mapper_number);
        self
    }

    pub fn submapper_number(&mut self, submapper_number: u8) -> (builder: &mut Self)
        ensures
            *builder == (CartridgeHeaderBuilder { submapper_number: Some(submapper_number), ..*old(self) }),
            *final(self) == *final(builder),
    {
        self.submapper_number = Some(submapper_number);
        self
    }

    pub fn name_table_mirroring(&mut self, name_table_mirroring: NameTableMirroring) -> (builder: &mut Self)
        ensures
            *builder == (CartridgeHeaderBuilder { name_table_mirroring: Some(name_table_mirroring), ..*old(self) }),
            *final(self) == *final(builder),
    {
        self.name_table_mirroring = Some(name_table_mirroring);
        self
    }

    pub fn has_persistent_memory(&mut self, has_persistent_memory: bool) -> (builder: &mut Self)
        ensures
            *builder == (CartridgeHeaderBuilder { has_persistent_memory: Some(has_persistent_memory), ..*old(self) }),
            *final(self) == *final(builder),
    {
        self.has_persistent_memory = Some(has_persistent_memory);
        self
    }

    pub fn console_type(&mut self, console_type: ConsoleType) -> (builder: &mut Self)
        ensures
            *builder == (CartridgeHeaderBuilder { console_type: Some(console_type), ..*old(self) }),
            *final(self) == *final(builder),
    {
        self.console_type = Some(console_type);
        self
    }

    pub fn full_hash(&mut self, full_hash: u32) -> (builder: &mut Self)
        ensures
            *builder == (CartridgeHeaderBuilder { full_hash: Some(full_hash), ..*old(self) }),
            *final(self) == *final(builder),
    {
        self.full_hash = Some(full_hash);
        self
    }

    pub fn prg_rom_hash(&mut self, prg_rom_hash: u32) -> (builder: &mut Self)
        ensures
            *builder == (CartridgeHeaderBuilder { prg_rom_hash: Some(prg_rom_hash), ..*old(self) }),
            *final(self) == *final(builder),
    {
        self.prg_rom_hash = Some(prg_rom_hash);
        self
    }

    pub fn prg_rom_size(&mut self, prg_rom_size: u32) -> (builder: &mut Self)
        ensures
            *builder == (CartridgeHeaderBuilder { prg_rom_size: Some(prg_rom_size), ..*old(self) }),
            *final(self) == *final(builder),
    {
        self.prg_rom_size = Some(prg_rom_size);
        self
    }

    pub fn prg_work_ram_size(&mut self, prg_work_ram_size: u32) -> (builder: &mut Self)
        ensures
            *builder == (CartridgeHeaderBuilder { prg_work_ram_size: Some(prg_work_ram_size), ..*old(self) }),
            *final(self) == *final(builder),
    {
        self.prg_work_ram_size = Some(prg_work_ram_size);
        self
    }

    pub fn prg_save_ram_size(&mut self, prg_save_ram_size: u32) -> (builder: &mut Self)
        ensures
            *builder == (CartridgeHeaderBuilder { prg_save_ram_size: Some(prg_save_ram_size), ..*old(self) }),
            *final(self) == *final(builder),
    {
        self.prg_save_ram_size = Some(prg_save_ram_size);
        self
    }

    pub fn chr_rom_size(&mut self, chr_rom_size: u32) -> (builder: &mut Self)
        ensures
            *builder == (CartridgeHeaderBuilder { chr_rom_size: Some(chr_rom_size), ..*old(self) }),
            *final(self) == *final(builder),
    {
        self.chr_rom_size = Some(chr_rom_size);
        self
    }

    pub fn chr_work_ram_size(&mut self, chr_work_ram_size: u32) -> (builder: &mut Self)
        ensures
            *builder == (CartridgeHeaderBuilder { chr_work_ram_size: Some(chr_work_ram_size), ..*old(self) }),
            *final(self) == *final(builder),
    {
        self.chr_work_ram_size = Some(chr_work_ram_size);
        self
    }

    pub fn chr_save_ram_size(&mut self, chr_save_ram_size: u32) -> (builder: &mut Self)
        ensures
            *builder == (CartridgeHeaderBuilder { chr_save_ram_size: Some(chr_save_ram_size), ..*old(self) }),
            *final(self) == *final(builder),
    {
        self.chr_save_ram_size = Some(chr_save_ram_size);
        self
    }

    pub fn build(&mut self) -> (header: CartridgeHeader)
        ensures header == old(self).spec_build(), *final(self) == *old(self),
    {
        CartridgeHeader {
            mapper_number: self.mapper_number,
            submapper_number: self.submapper_number,
            name_table_mirroring: self.name_table_mirroring,
            has_persistent_memory: self.has_persistent_memory,
            console_type: self.console_type,
            full_hash: self.full_hash,
            prg_rom_hash: self.prg_rom_hash,
            prg_rom_size: self.prg_rom_size,
            prg_work_ram_size: self.prg_work_ram_size,
            prg_save_ram_size: self.prg_save_ram_size,
            chr_rom_size: self.chr_rom_size,
            chr_work_ram_size: self.chr_work_ram_size,
            chr_save_ram_size: self.chr_save_ram_size,
        }
    }
}

/// The kind of console a cartridge was made for.
#[derive(Clone, Copy, Debug, PartialEq, Eq, Structural)]
pub enum ConsoleType {
    Nes,
    VsUnisystem,
    PlayChoice10,
    Extended,
}

impl ConsoleType {
    /// The name of the console type, as it is displayed.
    pub fn to_string(&self) -> (text: String)
        ensures
            text@ == (match *self {
                ConsoleType::Nes => "NES"@,
                ConsoleType::VsUnisystem => "VS Unisystem"@,
                ConsoleType::PlayChoice10 => "Play Choice 10"@,
                ConsoleType::Extended => "Extended"@,
            }),
    {
        match *self {
            ConsoleType::Nes => String::from_str("NES"),
            ConsoleType::VsUnisystem => String::from_str("VS Unisystem"),
            ConsoleType::PlayChoice10 => String::from_str("Play Choice 10"),
            ConsoleType::Extended => String::from_str("Extended"),
        }
    }
}


/// Turning a header into a builder and building it gives the header back.
pub proof fn lemma_header_builder_round_trip(header: CartridgeHeader)
    ensures
        header.spec_into_builder().spec_build() == header,
{
}

} // verus!

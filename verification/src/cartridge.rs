pub mod cartridge;
pub mod cartridge_header;
pub mod cartridge_header_and_data;
pub mod cartridge_metadata;
pub mod header_db;
pub mod header_db_xml;
pub mod resolved_metadata;

use vstd::prelude::*;
use vstd::slice::{slice_subrange, slice_to_vec};
use vstd::utf8::*;

use crate::cartridge::cartridge_header::{
    is_ines, non_ines_error, non_ines_message, play_choice_enabled, trainer_enabled, vs_unisystem_enabled,
};
use crate::ppu::name_table_mirroring::NameTableMirroring;
use crate::util::text::{
    decimal, decode_utf8_text, string_from_chars, take_before_nul, text_before_nul, title_length_error,
    title_length_is_proper, utf8_error_message,
};

verus! {

pub const PRG_ROM_CHUNK_LENGTH: usize = 0x4000;
pub const CHR_ROM_CHUNK_LENGTH: usize = 0x2000;

/// Byte 7 with both bits 3 and 2 set announces an iNES 2 header.
pub open spec fn ines2_flagged(rom: Seq<u8>) -> bool {
    rom[7] & 0b0000_1100 == 0b0000_1100
}

/// Bytes 8 to 14 hold the name of whoever dumped the ROM.
pub open spec fn ripper_bytes(rom: Seq<u8>) -> Seq<u8> {
    rom.subrange(8, 15)
}

/// Where the PRG ROM chunks end and the CHR ROM chunks begin.
pub open spec fn prg_rom_end(rom: Seq<u8>) -> int {
    16 + rom[4] * 0x4000
}

/// Where the CHR ROM chunks end and the title begins.
pub open spec fn title_start(rom: Seq<u8>) -> int {
    prg_rom_end(rom) + rom[5] * 0x2000
}

/// The bytes after the CHR ROM chunks.
pub open spec fn title_bytes(rom: Seq<u8>) -> Seq<u8> {
    rom.subrange(title_start(rom), rom.len() as int)
}

/// The features that loading does not implement: a trainer, iNES 2, PlayChoice, VS Unisystem.
pub open spec fn has_unimplemented_feature(rom: Seq<u8>) -> bool {
    trainer_enabled(rom) || ines2_flagged(rom) || play_choice_enabled(rom) || vs_unisystem_enabled(rom)
}

/// The ROMs that `Cartridge::load` handles without stopping: at least the magic number, and for
/// an iNES ROM with a readable ripper name, no unimplemented feature and all the chunks that the
/// header announces.
pub open spec fn loadable(rom: Seq<u8>) -> bool {
    &&& rom.len() >= 4
    &&& is_ines(rom) ==> rom.len() >= 15
    &&& is_ines(rom) && valid_utf8(ripper_bytes(rom)) ==> !has_unimplemented_feature(rom)
        && rom.len() >= title_start(rom)
}

/// A printable ASCII character stays, any other character becomes a tilde.
pub open spec fn graphic_or_tilde(c: char) -> char {
    if '!' <= c && c <= '~' {
        c
    } else {
        '~'
    }
}

/// The mapper number: byte 7's high nybble, then byte 6's.
pub open spec fn ines_mapper_number(rom: Seq<u8>) -> u8 {
    (rom[7] & 0b1111_0000) | ((rom[6] & 0b1111_0000) >> 4u8)
}

/// Byte 6: bit 3 selects four-screen mirroring, else bit 0 selects vertical over horizontal.
pub open spec fn ines_mirroring(rom: Seq<u8>) -> NameTableMirroring {
    if rom[6] & 0b0000_1000 != 0 {
        NameTableMirroring::FourScreen
    } else if rom[6] & 0b0000_0001 != 0 {
        NameTableMirroring::Vertical
    } else {
        NameTableMirroring::Horizontal
    }
}

/// The `count` chunks of `length` bytes that follow `start`.
pub open spec fn chunks(rom: Seq<u8>, start: int, count: nat, length: int) -> Seq<Seq<u8>> {
    Seq::new(count, |k: int| rom.subrange(start + k * length, start + (k + 1) * length))
}

/// An iNES ROM image: header fields, PRG and CHR ROM chunks, and the title that may follow.
#[derive(Clone, Debug)]
pub struct Cartridge {
    name: String,
    mapper_number: u8,
    name_table_mirroring: NameTableMirroring,
    has_persistent_memory: bool,
    ripper_name: String,
    prg_rom_chunks: Vec<Vec<u8>>,
    chr_rom_chunks: Vec<Vec<u8>>,
    console_type: ConsoleType,
    title: String,
}

/// What a `Cartridge` holds, as plain values.
pub struct CartridgeView {
    pub name: Seq<char>,
    pub mapper_number: u8,
    pub name_table_mirroring: NameTableMirroring,
    pub has_persistent_memory: bool,
    pub ripper_name: Seq<char>,
    pub prg_rom_chunks: Seq<Seq<u8>>,
    pub chr_rom_chunks: Seq<Seq<u8>>,
    pub console_type: ConsoleType,
    pub title: Seq<char>,
}

impl View for Cartridge {
    type V = CartridgeView;

    closed spec fn view(&self) -> CartridgeView {
        CartridgeView {
            name: self.name@,
            mapper_number: self.mapper_number,
            name_table_mirroring: self.name_table_mirroring,
            has_persistent_memory: self.has_persistent_memory,
            ripper_name: self.ripper_name@,
            prg_rom_chunks: self.prg_rom_chunks@.map_values(|chunk: Vec<u8>| chunk@),
            chr_rom_chunks: self.chr_rom_chunks@.map_values(|chunk: Vec<u8>| chunk@),
            console_type: self.console_type,
            title: self.title@,
        }
    }
}

/// The cartridge that a loadable iNES ROM, with a valid ripper name and title, describes.
pub open spec fn spec_loaded(name: Seq<char>, rom: Seq<u8>) -> CartridgeView {
    CartridgeView {
        name,
        mapper_number: ines_mapper_number(rom),
        name_table_mirroring: ines_mirroring(rom),
        has_persistent_memory: rom[6] & 0b0000_0010 != 0,
        ripper_name: decode_utf8(ripper_bytes(rom)).map_values(|c: char| graphic_or_tilde(c)),
        prg_rom_chunks: chunks(rom, 16, rom[4] as nat, 0x4000),
        chr_rom_chunks: chunks(rom, prg_rom_end(rom), rom[5] as nat, 0x2000),
        console_type: ConsoleType::Nes,
        title: text_before_nul(decode_utf8(title_bytes(rom))),
    }
}

fn graphic_or_tilde_char(c: char) -> (result: char)
    ensures
        result == graphic_or_tilde(c),
{
    if '!' <= c && c <= '~' {
        c
    } else {
        '~'
    }
}

/// Replaces each character that is not printable ASCII with a tilde.
fn sanitize_ripper_name(text: &String) -> (result: String)
    ensures
        result@ == text@.map_values(|c: char| graphic_or_tilde(c)),
{
    let s = text.as_str();
    let len = s.unicode_len();
    let mut chars: Vec<char> = Vec::new();
    let mut i: usize = 0;
    while i < len
        invariant
            len == s@.len(),
            s@ == text@,
            i <= len,
            chars@ == s@.take(i as int).map_values(|c: char| graphic_or_tilde(c)),
        decreases len - i,
    {
        let c = s.get_char(i);
        chars.push(graphic_or_tilde_char(c));
        i = i + 1;
        assert(chars@ =~= s@.take(i as int).map_values(|c: char| graphic_or_tilde(c)));
    }
    assert(s@.take(len as int) =~= s@);
    string_from_chars(&chars)
}

/// Copies `count` chunks of `length` bytes, the first starting at `start`.
fn read_chunks(rom: &[u8], start: usize, count: usize, length: usize) -> (result: Vec<Vec<u8>>)
    requires
        length > 0,
        start + count * length <= rom@.len(),
    ensures
        result@.map_values(|chunk: Vec<u8>| chunk@) == chunks(rom@, start as int, count as nat, length as int),
        forall|j: int| 0 <= j < result@.len() ==> (#[trigger] result@[j])@.len() == length,
{
    let rom_len = rom.len();
    let mut result: Vec<Vec<u8>> = Vec::new();
    let mut index: usize = start;
    let mut k: usize = 0;
    while k < count
        invariant
            length > 0,
            start + count * length <= rom@.len(),
            rom_len == rom@.len(),
            k <= count,
            index == start + k * length,
            result@.len() == k,
            forall|j: int| 0 <= j < k ==> (#[trigger] result@[j])@.len() == length,
            forall|j: int| 0 <= j < k ==> (#[trigger] result@[j])@ == rom@.subrange(
                start + j * length,
                start + (j + 1) * length,
            ),
        decreases count - k,
    {
        proof {
            assert((k + 1) * length <= count * length) by (nonlinear_arith)
                requires k < count;
            assert((k + 1) * length == k * length + length) by (nonlinear_arith);
            assert(index + length <= rom@.len());
        }
        let chunk = slice_to_vec(slice_subrange(rom, index, index + length));
        result.push(chunk);
        index = index + length;
        k = k + 1;
    }
    assert(result@.map_values(|chunk: Vec<u8>| chunk@) =~= chunks(rom@, start as int, count as nat, length as int));
    result
}

/// Concatenates chunks of bytes.
fn concat_chunks(chunks: &Vec<Vec<u8>>) -> (result: Vec<u8>)
    ensures
        result@ == chunks@.map_values(|chunk: Vec<u8>| chunk@).flatten(),
{
    let mut result: Vec<u8> = Vec::new();
    let mut k: usize = 0;
    while k < chunks.len()
        invariant
            k <= chunks@.len(),
            result@ == chunks@.take(k as int).map_values(|chunk: Vec<u8>| chunk@).flatten(),
        decreases chunks@.len() - k,
    {
        let ghost before = chunks@.take(k as int).map_values(|chunk: Vec<u8>| chunk@);
        result.extend_from_slice(chunks[k].as_slice());
        proof {
            let after = chunks@.take(k + 1).map_values(|chunk: Vec<u8>| chunk@);
            assert(after =~= before.push(chunks@[k as int]@));
            before.lemma_flatten_push(chunks@[k as int]@);
            assert(result@ =~= before.flatten() + chunks@[k as int]@);
        }
        k = k + 1;
    }
    assert(chunks@.take(chunks@.len() as int) =~= chunks@);
    result
}

impl Cartridge {
    /// Each PRG ROM chunk is 16 KiB and each CHR ROM chunk 8 KiB.
    pub open spec fn chunks_are_whole(&self) -> bool {
        &&& forall|j: int| 0 <= j < self@.prg_rom_chunks.len() ==> (#[trigger] self@.prg_rom_chunks[j]).len() == 0x4000
        &&& forall|j: int| 0 <= j < self@.chr_rom_chunks.len() ==> (#[trigger] self@.chr_rom_chunks[j]).len() == 0x2000
    }

    /// Loads an iNES ROM image. Fails for an image without the iNES magic number, for a ripper
    /// name or title that is not UTF-8, and for a title that is neither empty nor 127 or 128
    /// bytes long.
    pub fn load(name: String, rom: &[u8]) -> (result: Result<Cartridge, String>)
        requires
            loadable(rom@),
        ensures
            result is Ok <==> is_ines(rom@) && valid_utf8(ripper_bytes(rom@))
                && title_length_is_proper(rom@.len() - title_start(rom@))
                && valid_utf8(title_bytes(rom@)),
            result matches Ok(cartridge) ==> cartridge@ == spec_loaded(name@, rom@)
                && cartridge.chunks_are_whole(),
            result matches Err(message) ==> message@ == (
                if !is_ines(rom@) {
                    non_ines_message(rom@.subrange(0, 4))
                } else if !valid_utf8(ripper_bytes(rom@)) {
                    utf8_error_message(ripper_bytes(rom@))
                } else if !title_length_is_proper(rom@.len() - title_start(rom@)) {
                    "Title must be empty or 127 or 128 bytes, but was "@
                        + decimal((rom@.len() - title_start(rom@)) as nat) + " bytes."@
                } else {
                    utf8_error_message(title_bytes(rom@))
                }),
    {
        let header = slice_subrange(rom, 0, 4);
        if !(rom[0] == 0x4E && rom[1] == 0x45 && rom[2] == 0x53 && rom[3] == 0x1A) {
            return Err(non_ines_error(header));
        }

        let prg_rom_chunk_count = rom[4] as usize;
        let chr_rom_chunk_count = rom[5] as usize;

        let lower_mapper_number = rom[6] & 0b1111_0000;
        let four_screen = rom[6] & 0b0000_1000 != 0;
        let has_persistent_memory = rom[6] & 0b0000_0010 != 0;
        let vertical_mirroring = rom[6] & 0b0000_0001 != 0;
        let upper_mapper_number = rom[7] & 0b1111_0000;

        let ripper_text = match decode_utf8_text(slice_subrange(rom, 8, 15)) {
            Ok(text) => text,
            Err(message) => return Err(message),
        };
        let ripper_name = sanitize_ripper_name(&ripper_text);

        let mapper_number = upper_mapper_number | (lower_mapper_number >> 4);
        let name_table_mirroring = if four_screen {
            NameTableMirroring::FourScreen
        } else if vertical_mirroring {
            NameTableMirroring::Vertical
        } else {
            NameTableMirroring::Horizontal
        };

        let prg_rom_chunks = read_chunks(rom, 0x10, prg_rom_chunk_count, PRG_ROM_CHUNK_LENGTH);
        let chr_start = 0x10 + prg_rom_chunk_count * PRG_ROM_CHUNK_LENGTH;
        let chr_rom_chunks = read_chunks(rom, chr_start, chr_rom_chunk_count, CHR_ROM_CHUNK_LENGTH);
        let title_index = chr_start + chr_rom_chunk_count * CHR_ROM_CHUNK_LENGTH;

        let title_length = rom.len() - title_index;
        if !(title_length == 0 || title_length == 127 || title_length == 128) {
            return Err(title_length_error(title_length));
        }

        let title_text = match decode_utf8_text(slice_subrange(rom, title_index, rom.len())) {
            Ok(text) => text,
            Err(message) => return Err(message),
        };
        let title = take_before_nul(&title_text);

        let cartridge = Cartridge {
            name,
            mapper_number,
            name_table_mirroring,
            has_persistent_memory,
            ripper_name,
            prg_rom_chunks,
            chr_rom_chunks,
            console_type: ConsoleType::Nes,
            title,
        };
        assert(cartridge@ == spec_loaded(name@, rom@));
        assert(cartridge.chunks_are_whole());
        Ok(cartridge)
    }

    pub fn name(&self) -> (name: &str)
        ensures
            name@ == self@.name,
    {
        self.name.as_str()
    }

    pub fn mapper_number(&self) -> (mapper_number: u8)
        ensures
            mapper_number == self@.mapper_number,
    {
        self.mapper_number
    }

    pub fn name_table_mirroring(&self) -> (mirroring: NameTableMirroring)
        ensures
            mirroring == self@.name_table_mirroring,
    {
        self.name_table_mirroring
    }

    /// The 16 KiB chunks of PRG ROM.
    pub fn prg_rom_chunks(&self) -> (chunks: &[Vec<u8>])
        ensures
            chunks@.map_values(|chunk: Vec<u8>| chunk@) == self@.prg_rom_chunks,
    {
        self.prg_rom_chunks.as_slice()
    }

    /// The PRG ROM chunks, one after the other.
    pub fn prg_rom(&self) -> (prg_rom: Vec<u8>)
        ensures
            prg_rom@ == self@.prg_rom_chunks.flatten(),
    {
        concat_chunks(&self.prg_rom_chunks)
    }

    /// The 8 KiB chunks of CHR ROM.
    pub fn chr_rom_chunks(&self) -> (chunks: &[Vec<u8>])
        ensures
            chunks@.map_values(|chunk: Vec<u8>| chunk@) == self@.chr_rom_chunks,
    {
        self.chr_rom_chunks.as_slice()
    }

    /// Each CHR ROM chunk split into its two 4 KiB halves (pattern tables), in order.
    pub fn chr_rom_half_chunks(&self) -> (half_chunks: Vec<Vec<u8>>)
        requires
            self.chunks_are_whole(),
        ensures
            half_chunks@.map_values(|half: Vec<u8>| half@) == Seq::new(
                2 * self@.chr_rom_chunks.len(),
                |k: int| self@.chr_rom_chunks[k / 2].subrange((k % 2) * 0x1000, (k % 2) * 0x1000 + 0x1000),
            ),
    {
        let mut half_chunks: Vec<Vec<u8>> = Vec::new();
        let mut k: usize = 0;
        while k < self.chr_rom_chunks.len()
            invariant
                k <= self.chr_rom_chunks@.len(),
                self.chunks_are_whole(),
                half_chunks@.len() == 2 * k,
                forall|h: int| 0 <= h < 2 * k ==> (#[trigger] half_chunks@[h])@
                    == self.chr_rom_chunks@[h / 2]@.subrange((h % 2) * 0x1000, (h % 2) * 0x1000 + 0x1000),
            decreases self.chr_rom_chunks@.len() - k,
        {
            let chunk = self.chr_rom_chunks[k].as_slice();
            assert(self@.chr_rom_chunks[k as int] == self.chr_rom_chunks@[k as int]@);
            half_chunks.push(slice_to_vec(slice_subrange(chunk, 0, 0x1000)));
            half_chunks.push(slice_to_vec(slice_subrange(chunk, 0x1000, 0x2000)));
            proof {
                assert forall|h: int| 0 <= h < 2 * (k + 1) implies (#[trigger] half_chunks@[h])@
                    == self.chr_rom_chunks@[h / 2]@.subrange((h % 2) * 0x1000, (h % 2) * 0x1000 + 0x1000) by {
                    if h == 2 * k {
                        assert(h / 2 == k && h % 2 == 0);
                    } else if h == 2 * k + 1 {
                        assert(h / 2 == k && h % 2 == 1);
                    }
                }
            }
            k = k + 1;
        }
        let ghost expected = Seq::new(
            2 * self@.chr_rom_chunks.len(),
            |k: int| self@.chr_rom_chunks[k / 2].subrange((k % 2) * 0x1000, (k % 2) * 0x1000 + 0x1000),
        );
        assert(half_chunks@.map_values(|half: Vec<u8>| half@) =~= expected);
        half_chunks
    }

    /// The CHR ROM chunks, one after the other.
    pub fn chr_rom(&self) -> (chr_rom: Vec<u8>)
        ensures
            chr_rom@ == self@.chr_rom_chunks.flatten(),
    {
        concat_chunks(&self.chr_rom_chunks)
    }
}

/// The kind of console that a cartridge is made for.
#[derive(Clone, Debug)]
pub enum ConsoleType {
    Nes,
    VsUnisystem,
    PlayChoice10(Box<PlayChoice>),
    Extended,
}

/// The extra ROMs of a PlayChoice-10 cartridge.
#[derive(Clone, Debug)]
pub struct PlayChoice {
    inst_rom: [u8; 8192],
    prom_data: [u8; 16],
    prom_counter_out: [u8; 16],
}


/// A loaded ripper name holds only printable ASCII characters (others become tildes).
pub proof fn lemma_ripper_name_printable(name: Seq<char>, rom: Seq<u8>)
    ensures
        forall|i: int| 0 <= i < spec_loaded(name, rom).ripper_name.len()
            ==> '!' <= #[trigger] spec_loaded(name, rom).ripper_name[i] && spec_loaded(name, rom).ripper_name[i] <= '~',
{
}

} // verus!

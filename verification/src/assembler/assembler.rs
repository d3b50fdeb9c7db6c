use vstd::prelude::*;

use crate::assembler::raw_mem::{RawMem, resolved};
use crate::cartridge::cartridge::{
    file_stem_of, path_file_stem, path_pushed, path_with_extension, push_component, set_extension,
};

verus! {

pub const KIBIBYTE: u32 = 1024;
pub const PRG_ROM_CHUNK_SIZE: u32 = 16 * KIBIBYTE;
pub const CHR_ROM_CHUNK_SIZE: u32 = 8 * KIBIBYTE;

/// The name table mirroring that a cartridge's header announces.
#[derive(PartialEq, Eq, Clone, Copy, Debug, Structural)]
pub enum Mirroring {
    Horizontal,
    Vertical,
}

impl Default for Mirroring {
    fn default() -> (mirroring: Self)
        ensures mirroring == Mirroring::Horizontal,
    {
        Mirroring::Horizontal
    }
}

/// What an assembled cartridge's header says.
#[derive(Clone, Copy, Debug, PartialEq, Eq, Structural)]
pub struct Metadata {
    pub mapper: u8,
    pub mirroring: Mirroring,
    pub prg_rom_size: u32,
    pub chr_rom_size: u32,
}

impl Metadata {
    /// Mapper 0 (NROM), horizontal mirroring, 32 KiB of PRG ROM and 8 KiB of CHR ROM, no work RAM.
    pub fn nrom_no_wram() -> (metadata: Metadata)
        ensures
            metadata == (Metadata {
                mapper: 0,
                mirroring: Mirroring::Horizontal,
                prg_rom_size: 32768u32,
                chr_rom_size: 8192u32,
            }),
    {
        MetadataBuilder::new()
            .mapper(0)
            .mirroring(Mirroring::Horizontal)
            .prg_rom_size(32 * KIBIBYTE)
            .chr_rom_size(8 * KIBIBYTE)
            .build()
    }
}

/// Collects the fields of a `Metadata`; every field must be given.
#[derive(Clone, Copy, Debug, PartialEq, Eq, Structural)]
pub struct MetadataBuilder {
    pub mapper: Option<u8>,
    pub mirroring: Option<Mirroring>,
    pub prg_rom_size: Option<u32>,
    pub chr_rom_size: Option<u32>,
}

impl MetadataBuilder {
    pub fn new() -> (builder: Self)
        ensures builder == (MetadataBuilder { mapper: None, mirroring: None, prg_rom_size: None, chr_rom_size: None }),
    {
        Self {
            mapper: None,
            mirroring: None,
            prg_rom_size: None,
            chr_rom_size: None,
        }
    }

    pub fn mapper(self, value: u8) -> (builder: Self)
        ensures builder == (MetadataBuilder { mapper: Some(value), ..self }),
    {
        MetadataBuilder { mapper: Some(value), ..self }
    }

    pub fn mirroring(self, value: Mirroring) -> (builder: Self)
        ensures builder == (MetadataBuilder { mirroring: Some(value), ..self }),
    {
        MetadataBuilder { mirroring: Some(value), ..self }
    }

    pub fn prg_rom_size(self, value: u32) -> (builder: Self)
        ensures builder == (MetadataBuilder { prg_rom_size: Some(value), ..self }),
    {
        MetadataBuilder { prg_rom_size: Some(value), ..self }
    }

    pub fn chr_rom_size(self, value: u32) -> (builder: Self)
        ensures builder == (MetadataBuilder { chr_rom_size: Some(value), ..self }),
    {
        MetadataBuilder { chr_rom_size: Some(value), ..self }
    }

    /// The metadata; every field must have been set.
    pub fn build(self) -> (metadata: Metadata)
        requires
            self.mapper is Some,
            self.mirroring is Some,
            self.prg_rom_size is Some,
            self.chr_rom_size is Some,
        ensures
            metadata == (Metadata {
                mapper: self.mapper.unwrap(),
                mirroring: self.mirroring.unwrap(),
                prg_rom_size: self.prg_rom_size.unwrap(),
                chr_rom_size: self.chr_rom_size.unwrap(),
            }),
    {
        Metadata {
            mapper: self.mapper.unwrap(),
            mirroring: self.mirroring.unwrap(),
            prg_rom_size: self.prg_rom_size.unwrap(),
            chr_rom_size: self.chr_rom_size.unwrap(),
        }
    }
}

/// The PRG ROM being assembled, written byte after byte from its start.
pub struct PrgRom {
    rom: RawMem,
    index: u32,
}

impl PrgRom {
    /// The ROM bytes written so far (as `Some`) and the rest (as `None`).
    pub closed spec fn spec_rom(&self) -> Seq<Option<u8>> {
        self.rom@
    }

    pub closed spec fn spec_fill_byte(&self) -> u8 {
        self.rom.spec_fill_byte()
    }

    /// The position of the next byte to write.
    pub closed spec fn spec_index(&self) -> u32 {
        self.index
    }

    /// The bytes before the position are written, the rest are not.
    pub open spec fn wf(&self) -> bool {
        &&& self.spec_index() <= self.spec_rom().len() <= u32::MAX
        &&& forall|i: int| 0 <= i < self.spec_rom().len() ==> (self.spec_rom()[i] is None <==> i >= self.spec_index())
    }

    /// An empty PRG ROM of `size` bytes, a whole number of 16 KiB chunks.
    pub fn new(size: u32) -> (prg_rom: Self)
        requires
            size % PRG_ROM_CHUNK_SIZE == 0,
        ensures
            prg_rom.wf(),
            prg_rom.spec_rom() == Seq::new(size as nat, |i: int| None::<u8>),
            prg_rom.spec_index() == 0,
            prg_rom.spec_fill_byte() == 0,
    {
        Self {
            rom: RawMem::new(size),
            index: 0,
        }
    }

    /// Writes the next byte.
    pub fn set_next_raw(&mut self, value: u8)
        requires
            old(self).wf(),
            old(self).spec_index() < old(self).spec_rom().len(),
        ensures
            final(self).wf(),
            final(self).spec_rom() == old(self).spec_rom().update(old(self).spec_index() as int, Some(value)),
            final(self).spec_index() == old(self).spec_index() + 1,
            final(self).spec_fill_byte() == old(self).spec_fill_byte(),
    {
        self.rom.set_at(self.index, value);
        self.index = self.index + 1;
    }

    /// Writes the same byte `n` times.
    pub fn set_next_raw_n(&mut self, value: u8, n: u32)
        requires
            old(self).wf(),
            old(self).spec_index() + n <= old(self).spec_rom().len(),
        ensures
            final(self).wf(),
            final(self).spec_index() == old(self).spec_index() + n,
            final(self).spec_rom() == Seq::new(old(self).spec_rom().len(), |i: int|
                if old(self).spec_index() <= i < old(self).spec_index() + n { Some(value) } else { old(self).spec_rom()[i] }),
            final(self).spec_fill_byte() == old(self).spec_fill_byte(),
    {
        let ghost start = self.spec_index();
        let ghost before = self.spec_rom();
        let mut k: u32 = 0;
        while k < n
            invariant
                self.wf(),
                k <= n,
                start + n <= before.len(),
                self.spec_index() == start + k,
                self.spec_fill_byte() == old(self).spec_fill_byte(),
                self.spec_rom() == Seq::new(before.len(), |i: int|
                    if start <= i < start + k { Some(value) } else { before[i] }),
            decreases n - k,
        {
            self.set_next_raw(value);
            k = k + 1;
            assert(self.spec_rom() =~= Seq::new(before.len(), |i: int|
                if start <= i < start + k { Some(value) } else { before[i] }));
        }
    }
}

/// The CHR ROM being assembled.
pub struct ChrRom {
    rom: RawMem,
}

impl ChrRom {
    pub closed spec fn spec_rom(&self) -> Seq<Option<u8>> {
        self.rom@
    }

    pub closed spec fn spec_fill_byte(&self) -> u8 {
        self.rom.spec_fill_byte()
    }

    /// An empty CHR ROM of `size` bytes, a whole number of 8 KiB chunks.
    pub fn new(size: u32) -> (chr_rom: Self)
        requires
            size % CHR_ROM_CHUNK_SIZE == 0,
        ensures
            chr_rom.spec_rom() == Seq::new(size as nat, |i: int| None::<u8>),
            chr_rom.spec_fill_byte() == 0,
    {
        Self { rom: RawMem::new(size) }
    }
}

/// A cartridge being assembled: its header fields and its ROMs.
pub struct Cartridge {
    pub metadata: Metadata,
    pub prg_rom: PrgRom,
    pub chr_rom: ChrRom,
}

/// The iNES header of an assembled cartridge: the magic number, the chunk counts, the mapper
/// number's low nybble with the mirroring bit, the mapper number's high nybble, and zeros.
pub open spec fn ines_header(metadata: Metadata, prg_rom_len: int, chr_rom_len: int) -> Seq<u8> {
    seq![
        0x4Eu8,
        0x45u8,
        0x53u8,
        0x1Au8,
        (prg_rom_len / (PRG_ROM_CHUNK_SIZE as int)) as u8,
        (chr_rom_len / (CHR_ROM_CHUNK_SIZE as int)) as u8,
        (((metadata.mapper & 0b1111) << 4u8) | (if metadata.mirroring == Mirroring::Vertical { 1u8 } else { 0u8 })) as u8,
        (metadata.mapper & 0b1111_0000) as u8,
        0u8, 0u8, 0u8, 0u8, 0u8, 0u8, 0u8, 0u8
    ]
}

impl Cartridge {
    /// A cartridge with empty ROMs of the sizes that the metadata gives.
    pub fn new(metadata: Metadata) -> (cartridge: Self)
        requires
            metadata.prg_rom_size % PRG_ROM_CHUNK_SIZE == 0,
            metadata.chr_rom_size % CHR_ROM_CHUNK_SIZE == 0,
        ensures
            cartridge.metadata == metadata,
            cartridge.prg_rom.wf(),
            cartridge.prg_rom.spec_index() == 0,
            cartridge.prg_rom.spec_rom() == Seq::new(metadata.prg_rom_size as nat, |i: int| None::<u8>),
            cartridge.prg_rom.spec_fill_byte() == 0,
            cartridge.chr_rom.spec_rom() == Seq::new(metadata.chr_rom_size as nat, |i: int| None::<u8>),
            cartridge.chr_rom.spec_fill_byte() == 0,
    {
        Self {
            metadata,
            prg_rom: PrgRom::new(metadata.prg_rom_size),
            chr_rom: ChrRom::new(metadata.chr_rom_size),
        }
    }

    /// The iNES image: the header, then the PRG ROM, then the CHR ROM, unset bytes filled.
    pub fn to_bytes(&self) -> (bytes: Vec<u8>)
        requires
            self.prg_rom.spec_rom().len() / (PRG_ROM_CHUNK_SIZE as nat) < 256,
            self.chr_rom.spec_rom().len() / (CHR_ROM_CHUNK_SIZE as nat) < 256,
            self.prg_rom.spec_rom().len() <= u32::MAX,
            self.chr_rom.spec_rom().len() <= u32::MAX,
        ensures
            bytes@ == ines_header(self.metadata, self.prg_rom.spec_rom().len() as int, self.chr_rom.spec_rom().len() as int)
                + resolved(self.prg_rom.spec_rom(), self.prg_rom.spec_fill_byte())
                + resolved(self.chr_rom.spec_rom(), self.chr_rom.spec_fill_byte()),
    {
        let prg_chunks = (self.prg_rom.rom.size() / PRG_ROM_CHUNK_SIZE) as u8;
        let chr_chunks = (self.chr_rom.rom.size() / CHR_ROM_CHUNK_SIZE) as u8;
        let mapper = self.metadata.mapper;
        let vertical: u8 = if self.metadata.mirroring == Mirroring::Vertical { 1 } else { 0 };
        let mut bytes: Vec<u8> = vec![
            0x4E,
            0x45,
            0x53,
            0x1A,
            prg_chunks,
            chr_chunks,
            ((mapper & 0b1111) << 4) | vertical,
            ((mapper >> 4) & 0b1111) << 4,
            0, // 8
            0, // 9
            0, // 10
            0, // 11
            0, // 12
            0, // 13
            0, // 14
            0, // 15
        ];
        assert((((mapper >> 4u8) & 0b1111) << 4u8) == mapper & 0b1111_0000) by (bit_vector);
        let ghost header = bytes@;
        assert(header =~= ines_header(self.metadata, self.prg_rom.spec_rom().len() as int, self.chr_rom.spec_rom().len() as int));
        let mut prg = self.prg_rom.rom.resolve();
        bytes.append(&mut prg);
        let mut chr = self.chr_rom.rom.resolve();
        bytes.append(&mut chr);

        bytes
    }
}

/// A cartridge whose 32 KiB of PRG ROM are all NOP instructions (0xEA).
pub fn demo_cartridge() -> (cartridge: Cartridge)
    ensures
        cartridge.metadata == (Metadata {
            mapper: 0,
            mirroring: Mirroring::Horizontal,
            prg_rom_size: 32768u32,
            chr_rom_size: 8192u32,
        }),
        resolved(cartridge.prg_rom.spec_rom(), cartridge.prg_rom.spec_fill_byte())
            == Seq::new((32 * KIBIBYTE) as nat, |i: int| 0xEAu8),
        resolved(cartridge.chr_rom.spec_rom(), cartridge.chr_rom.spec_fill_byte())
            == Seq::new((8 * KIBIBYTE) as nat, |i: int| 0u8),
        cartridge.prg_rom.spec_rom().len() == 32 * KIBIBYTE,
        cartridge.chr_rom.spec_rom().len() == 8 * KIBIBYTE,
{
    let mut cartridge = Cartridge::new(Metadata::nrom_no_wram());
    cartridge.prg_rom.set_next_raw_n(0xEA, 32 * KIBIBYTE);
    assert(resolved(cartridge.prg_rom.spec_rom(), cartridge.prg_rom.spec_fill_byte())
        =~= Seq::new((32 * KIBIBYTE) as nat, |i: int| 0xEAu8));
    assert(resolved(cartridge.chr_rom.spec_rom(), cartridge.chr_rom.spec_fill_byte())
        =~= Seq::new((8 * KIBIBYTE) as nat, |i: int| 0u8));
    cartridge
}

/// Where the cartridge assembled from a source file is written: under `assembled`, the source
/// file's name with the extension `nes`.
pub open spec fn spec_assembled_cartridge_path(source_code_path: Seq<char>) -> Seq<char> {
    path_with_extension(path_pushed("assembled"@, path_file_stem(source_code_path).unwrap()), "nes"@)
}

/// The path that the cartridge assembled from a source file is written to; the source path
/// must have a file name.
pub fn assembled_cartridge_path(source_code_path: &str) -> (path: String)
    requires
        path_file_stem(source_code_path@) is Some,
    ensures
        path@ == spec_assembled_cartridge_path(source_code_path@),
{
    let cartridge_name = file_stem_of(source_code_path).unwrap();
    let path = push_component("assembled", cartridge_name.as_str());
    proof { reveal_strlit("nes"); }
    set_extension(path.as_str(), "nes")
}

/// The path that the cartridge assembled from a source file is written to, or none for a source
/// path without a file name.
pub fn try_assembled_cartridge_path(source_code_path: &str) -> (path: Option<String>)
    ensures
        path is Some <==> path_file_stem(source_code_path@) is Some,
        path matches Some(p) ==> p@ == spec_assembled_cartridge_path(source_code_path@),
{
    match file_stem_of(source_code_path) {
        Some(_) => Some(assembled_cartridge_path(source_code_path)),
        None => None,
    }
}

} // verus!

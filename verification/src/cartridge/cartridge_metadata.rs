use vstd::prelude::*;

use crate::ppu::name_table_mirroring::NameTableMirroring;

verus! {

/// What one source (the ROM header, the header database, an override) says of a cartridge; each field may be unknown.
#[derive(Clone, Copy, Debug)]
pub struct CartridgeMetadata {
    pub mapper_number: Option<u16>,
    pub submapper_number: Option<u8>,
    pub name_table_mirroring_index: Option<u8>,
    pub name_table_mirroring: Option<NameTableMirroring>,
    pub has_persistent_memory: Option<bool>,
    pub full_hash: Option<u32>,
    pub prg_rom_hash: Option<u32>,
    pub chr_rom_hash: Option<u32>,
    pub trainer_hash: Option<u32>,
    pub prg_rom_size: Option<u32>,
    pub prg_work_ram_size: Option<u32>,
    pub prg_save_ram_size: Option<u32>,
    pub chr_rom_size: Option<u32>,
    pub chr_work_ram_size: Option<u32>,
    pub chr_save_ram_size: Option<u32>,
    pub console_type: Option<ConsoleType>,
    pub timing_mode: Option<TimingMode>,
    pub miscellaneous_rom_count: Option<u8>,
    pub default_expansion_device: Option<ExpansionDevice>,
    pub vs_hardware_type: Option<VsHardwareType>,
    pub vs_ppu_type: Option<VsPpuType>,
}

impl CartridgeMetadata {
    pub fn full_hash(&self) -> (value: Option<u32>)
        ensures value == self.full_hash,
    {
        self.full_hash
    }

    pub fn prg_rom_hash(&self) -> (value: Option<u32>)
        ensures value == self.prg_rom_hash,
    {
        self.prg_rom_hash
    }

    pub fn chr_rom_hash(&self) -> (value: Option<u32>)
        ensures value == self.chr_rom_hash,
    {
        self.chr_rom_hash
    }

    pub fn mapper_number(&self) -> (value: Option<u16>)
        ensures value == self.mapper_number,
    {
        self.mapper_number
    }

    pub fn submapper_number(&self) -> (value: Option<u8>)
        ensures value == self.submapper_number,
    {
        self.submapper_number
    }

    pub fn has_persistent_memory(&self) -> (value: Option<bool>)
        ensures value == self.has_persistent_memory,
    {
        self.has_persistent_memory
    }

    pub fn prg_rom_size(&self) -> (value: Option<u32>)
        ensures value == self.prg_rom_size,
    {
        self.prg_rom_size
    }

    pub fn prg_work_ram_size(&self) -> (value: Option<u32>)
        ensures value == self.prg_work_ram_size,
    {
        self.prg_work_ram_size
    }

    pub fn prg_save_ram_size(&self) -> (value: Option<u32>)
        ensures value == self.prg_save_ram_size,
    {
        self.prg_save_ram_size
    }

    pub fn chr_rom_size(&self) -> (value: Option<u32>)
        ensures value == self.chr_rom_size,
    {
        self.chr_rom_size
    }

    pub fn chr_work_ram_size(&self) -> (value: Option<u32>)
        ensures value == self.chr_work_ram_size,
    {
        self.chr_work_ram_size
    }

    pub fn chr_save_ram_size(&self) -> (value: Option<u32>)
        ensures value == self.chr_save_ram_size,
    {
        self.chr_save_ram_size
    }

    pub fn name_table_mirroring_index(&self) -> (value: Option<u8>)
        ensures value == self.name_table_mirroring_index,
    {
        self.name_table_mirroring_index
    }

    /// The mirroring, if known; a cartridge that specifies four-screen mirroring has none.
    pub fn name_table_mirroring(&self) -> (value: Option<NameTableMirroring>)
        ensures value == self.name_table_mirroring,
    {
        self.name_table_mirroring
    }

    pub fn console_type(&self) -> (value: Option<ConsoleType>)
        ensures value == self.console_type,
    {
        self.console_type
    }

    pub fn timing_mode(&self) -> (value: Option<TimingMode>)
        ensures value == self.timing_mode,
    {
        self.timing_mode
    }

    pub fn miscellaneous_rom_count(&self) -> (value: Option<u8>)
        ensures value == self.miscellaneous_rom_count,
    {
        self.miscellaneous_rom_count
    }

    pub fn default_expansion_device(&self) -> (value: Option<ExpansionDevice>)
        ensures value == self.default_expansion_device,
    {
        self.default_expansion_device
    }

    pub fn vs_hardware_type(&self) -> (value: Option<VsHardwareType>)
        ensures value == self.vs_hardware_type,
    {
        self.vs_hardware_type
    }

    pub fn vs_ppu_type(&self) -> (value: Option<VsPpuType>)
        ensures value == self.vs_ppu_type,
    {
        self.vs_ppu_type
    }

    pub fn set_name_table_mirroring(&mut self, name_table_mirroring: NameTableMirroring)
        ensures *final(self) == (CartridgeMetadata { name_table_mirroring: Some(name_table_mirroring), ..*old(self) }),
    {
        self.name_table_mirroring = Some(name_table_mirroring);
    }

    pub fn set_prg_rom_hash(&mut self, prg_rom_hash: u32)
        ensures *final(self) == (CartridgeMetadata { prg_rom_hash: Some(prg_rom_hash), ..*old(self) }),
    {
        self.prg_rom_hash = Some(prg_rom_hash);
    }

    pub fn set_chr_rom_hash(&mut self, chr_rom_hash: u32)
        ensures *final(self) == (CartridgeMetadata { chr_rom_hash: Some(chr_rom_hash), ..*old(self) }),
    {
        self.chr_rom_hash = Some(chr_rom_hash);
    }

    /// The builder that starts from every field of this metadata.
    pub open spec fn spec_into_builder(self) -> CartridgeMetadataBuilder {
        (CartridgeMetadataBuilder {
            mapper_number: self.mapper_number,
            submapper_number: self.submapper_number,
            name_table_mirroring_index: self.name_table_mirroring_index,
            name_table_mirroring: self.name_table_mirroring,
            has_persistent_memory: self.has_persistent_memory,
            full_hash: self.full_hash,
            prg_rom_hash: self.prg_rom_hash,
            chr_rom_hash: self.chr_rom_hash,
            trainer_hash: self.trainer_hash,
            prg_rom_size: self.prg_rom_size,
            prg_work_ram_size: self.prg_work_ram_size,
            prg_save_ram_size: self.prg_save_ram_size,
            chr_rom_size: self.chr_rom_size,
            chr_work_ram_size: self.chr_work_ram_size,
            chr_save_ram_size: self.chr_save_ram_size,
            console_type: self.console_type,
            timing_mode: self.timing_mode,
            miscellaneous_rom_count: self.miscellaneous_rom_count,
            default_expansion_device: self.default_expansion_device,
            vs_hardware_type: self.vs_hardware_type,
            vs_ppu_type: self.vs_ppu_type,
        })
    }

    /// A builder that starts from every field of this metadata.
    pub fn into_builder(self) -> (builder: CartridgeMetadataBuilder)
        ensures
            builder == self.spec_into_builder(),
    {
        CartridgeMetadataBuilder {
            mapper_number: self.mapper_number,
            submapper_number: self.submapper_number,
            name_table_mirroring_index: self.name_table_mirroring_index,
            name_table_mirroring: self.name_table_mirroring,
            has_persistent_memory: self.has_persistent_memory,
            full_hash: self.full_hash,
            prg_rom_hash: self.prg_rom_hash,
            chr_rom_hash: self.chr_rom_hash,
            trainer_hash: self.trainer_hash,
            prg_rom_size: self.prg_rom_size,
            prg_work_ram_size: self.prg_work_ram_size,
            prg_save_ram_size: self.prg_save_ram_size,
            chr_rom_size: self.chr_rom_size,
            chr_work_ram_size: self.chr_work_ram_size,
            chr_save_ram_size: self.chr_save_ram_size,
            console_type: self.console_type,
            timing_mode: self.timing_mode,
            miscellaneous_rom_count: self.miscellaneous_rom_count,
            default_expansion_device: self.default_expansion_device,
            vs_hardware_type: self.vs_hardware_type,
            vs_ppu_type: self.vs_ppu_type,
        }
    }
}

/// Collects the fields of a `CartridgeMetadata`.
#[derive(Clone, Copy, Debug)]
pub struct CartridgeMetadataBuilder {
    pub mapper_number: Option<u16>,
    pub submapper_number: Option<u8>,
    pub name_table_mirroring_index: Option<u8>,
    pub name_table_mirroring: Option<NameTableMirroring>,
    pub has_persistent_memory: Option<bool>,
    pub full_hash: Option<u32>,
    pub prg_rom_hash: Option<u32>,
    pub chr_rom_hash: Option<u32>,
    pub trainer_hash: Option<u32>,
    pub prg_rom_size: Option<u32>,
    pub prg_work_ram_size: Option<u32>,
    pub prg_save_ram_size: Option<u32>,
    pub chr_rom_size: Option<u32>,
    pub chr_work_ram_size: Option<u32>,
    pub chr_save_ram_size: Option<u32>,
    pub console_type: Option<ConsoleType>,
    pub timing_mode: Option<TimingMode>,
    pub miscellaneous_rom_count: Option<u8>,
    pub default_expansion_device: Option<ExpansionDevice>,
    pub vs_hardware_type: Option<VsHardwareType>,
    pub vs_ppu_type: Option<VsPpuType>,
}

impl CartridgeMetadataBuilder {
    /// The metadata with the fields given so far.
    pub open spec fn spec_build(self) -> CartridgeMetadata {
        CartridgeMetadata {
            mapper_number: self.mapper_number,
            submapper_number: self.submapper_number,
            name_table_mirroring_index: self.name_table_mirroring_index,
            name_table_mirroring: self.name_table_mirroring,
            has_persistent_memory: self.has_persistent_memory,
            full_hash: self.full_hash,
            prg_rom_hash: self.prg_rom_hash,
            chr_rom_hash: self.chr_rom_hash,
            trainer_hash: self.trainer_hash,
            prg_rom_size: self.prg_rom_size,
            prg_work_ram_size: self.prg_work_ram_size,
            prg_save_ram_size: self.prg_save_ram_size,
            chr_rom_size: self.chr_rom_size,
            chr_work_ram_size: self.chr_work_ram_size,
            chr_save_ram_size: self.chr_save_ram_size,
            console_type: self.console_type,
            timing_mode: self.timing_mode,
            miscellaneous_rom_count: self.miscellaneous_rom_count,
            default_expansion_device: self.default_expansion_device,
            vs_hardware_type: self.vs_hardware_type,
            vs_ppu_type: self.vs_ppu_type,
        }
    }

    /// A builder with no field known.
    pub fn new() -> (builder: Self)
        ensures
            builder == (CartridgeMetadataBuilder {
                mapper_number: None,
                submapper_number: None,
                name_table_mirroring_index: None,
                name_table_mirroring: None,
                has_persistent_memory: None,
                full_hash: None,
                prg_rom_hash: None,
                chr_rom_hash: None,
                trainer_hash: None,
                prg_rom_size: None,
                prg_work_ram_size: None,
                prg_save_ram_size: None,
                chr_rom_size: None,
                chr_work_ram_size: None,
                chr_save_ram_size: None,
                console_type: None,
                timing_mode: None,
                miscellaneous_rom_count: None,
                default_expansion_device: None,
                vs_hardware_type: None,
                vs_ppu_type: None,
            }),
    {
        CartridgeMetadataBuilder {
            mapper_number: None,
            submapper_number: None,
            name_table_mirroring_index: None,
            name_table_mirroring: None,
            has_persistent_memory: None,
            full_hash: None,
            prg_rom_hash: None,
            chr_rom_hash: None,
            trainer_hash: None,
            prg_rom_size: None,
            prg_work_ram_size: None,
            prg_save_ram_size: None,
            chr_rom_size: None,
            chr_work_ram_size: None,
            chr_save_ram_size: None,
            console_type: None,
            timing_mode: None,
            miscellaneous_rom_count: None,
            default_expansion_device: None,
            vs_hardware_type: None,
            vs_ppu_type: None,
        }
    }

    /// Sets the mapper number, and the submapper number unless it is 0 for a mapper that has no
    /// submapper 0 (one in `mappers_without_submapper_0`). The mapper number can be set once.
    pub fn mapper_and_submapper_number(
        &mut self,
        mapper_number: u16,
        submapper_number: Option<u8>,
        mappers_without_submapper_0: &[u16],
    ) -> (builder: &mut Self)
        requires
            old(self).mapper_number is None,
        ensures
            *builder == (CartridgeMetadataBuilder {
                mapper_number: Some(mapper_number),
                submapper_number: if mappers_without_submapper_0@.contains(mapper_number) && submapper_number == Some(0u8) {
                    None
                } else {
                    submapper_number
                },
                ..*old(self)
            }),
            *final(self) == *final(builder),
    {
        self.mapper_number = Some(mapper_number);
        let mut listed = false;
        let mut i: usize = 0;
        while i < mappers_without_submapper_0.len()
            invariant
                i <= mappers_without_submapper_0@.len(),
                listed <==> mappers_without_submapper_0@.take(i as int).contains(mapper_number),
            decreases mappers_without_submapper_0@.len() - i,
        {
            if mappers_without_submapper_0[i] == mapper_number {
                listed = true;
            }
            proof {
                let next = mappers_without_submapper_0@.take(i + 1);
                assert(next =~= mappers_without_submapper_0@.take(i as int).push(mappers_without_submapper_0@[i as int]));
                if next.contains(mapper_number) && !mappers_without_submapper_0@.take(i as int).contains(mapper_number) {
                    let j = choose|j: int| 0 <= j < next.len() && next[j] == mapper_number;
                    assert(j == i);
                }
                if mappers_without_submapper_0@.take(i as int).contains(mapper_number) {
                    let j = choose|j: int| 0 <= j < i && mappers_without_submapper_0@.take(i as int)[j] == mapper_number;
                    assert(next[j] == mapper_number);
                }
                if mappers_without_submapper_0[i as int] == mapper_number {
                    assert(next[i as int] == mapper_number);
                }
            }
            i = i + 1;
        }
        assert(mappers_without_submapper_0@.take(mappers_without_submapper_0@.len() as int) =~= mappers_without_submapper_0@);
        if listed && submapper_number == Some(0u8) {
            self.submapper_number = None;
        } else {
            self.submapper_number = submapper_number;
        }
        self
    }

    /// The mirroring index is a 2-bit value.
    pub fn name_table_mirroring_index(&mut self, index: u8) -> (builder: &mut Self)
        requires index < 4,
        ensures
            *builder == (CartridgeMetadataBuilder { name_table_mirroring_index: Some(index), ..*old(self) }),
            *final(self) == *final(builder),
    {
        self.name_table_mirroring_index = Some(index);
        self
    }

    pub fn name_table_mirroring(&mut self, name_table_mirroring: NameTableMirroring) -> (builder: &mut Self)
        ensures
            *builder == (CartridgeMetadataBuilder { name_table_mirroring: Some(name_table_mirroring), ..*old(self) }),
            *final(self) == *final(builder),
    {
        self.name_table_mirroring = Some(name_table_mirroring);
        self
    }

    pub fn has_persistent_memory(&mut self, has_persistent_memory: bool) -> (builder: &mut Self)
        ensures
            *builder == (CartridgeMetadataBuilder { has_persistent_memory: Some(has_persistent_memory), ..*old(self) }),
            *final(self) == *final(builder),
    {
        self.has_persistent_memory = Some(has_persistent_memory);
        self
    }

    pub fn full_hash(&mut self, full_hash: u32) -> (builder: &mut Self)
        ensures
            *builder == (CartridgeMetadataBuilder { full_hash: Some(full_hash), ..*old(self) }),
            *final(self) == *final(builder),
    {
        self.full_hash = Some(full_hash);
        self
    }

    pub fn prg_rom_hash(&mut self, prg_rom_hash: u32) -> (builder: &mut Self)
        ensures
            *builder == (CartridgeMetadataBuilder { prg_rom_hash: Some(prg_rom_hash), ..*old(self) }),
            *final(self) == *final(builder),
    {
        self.prg_rom_hash = Some(prg_rom_hash);
        self
    }

    pub fn chr_rom_hash(&mut self, chr_rom_hash: u32) -> (builder: &mut Self)
        ensures
            *builder == (CartridgeMetadataBuilder { chr_rom_hash: Some(chr_rom_hash), ..*old(self) }),
            *final(self) == *final(builder),
    {
        self.chr_rom_hash = Some(chr_rom_hash);
        self
    }

    pub fn prg_rom_size(&mut self, prg_rom_size: u32) -> (builder: &mut Self)
        ensures
            *builder == (CartridgeMetadataBuilder { prg_rom_size: Some(prg_rom_size), ..*old(self) }),
            *final(self) == *final(builder),
    {
        self.prg_rom_size = Some(prg_rom_size);
        self
    }

    pub fn prg_work_ram_size(&mut self, prg_work_ram_size: u32) -> (builder: &mut Self)
        ensures
            *builder == (CartridgeMetadataBuilder { prg_work_ram_size: Some(prg_work_ram_size), ..*old(self) }),
            *final(self) == *final(builder),
    {
        self.prg_work_ram_size = Some(prg_work_ram_size);
        self
    }

    pub fn prg_save_ram_size(&mut self, prg_save_ram_size: u32) -> (builder: &mut Self)
        ensures
            *builder == (CartridgeMetadataBuilder { prg_save_ram_size: Some(prg_save_ram_size), ..*old(self) }),
            *final(self) == *final(builder),
    {
        self.prg_save_ram_size = Some(prg_save_ram_size);
        self
    }

    pub fn chr_rom_size(&mut self, chr_rom_size: u32) -> (builder: &mut Self)
        ensures
            *builder == (CartridgeMetadataBuilder { chr_rom_size: Some(chr_rom_size), ..*old(self) }),
            *final(self) == *final(builder),
    {
        self.chr_rom_size = Some(chr_rom_size);
        self
    }

    pub fn chr_work_ram_size(&mut self, chr_work_ram_size: u32) -> (builder: &mut Self)
        ensures
            *builder == (CartridgeMetadataBuilder { chr_work_ram_size: Some(chr_work_ram_size), ..*old(self) }),
            *final(self) == *final(builder),
    {
        self.chr_work_ram_size = Some(chr_work_ram_size);
        self
    }

    pub fn chr_save_ram_size(&mut self, chr_save_ram_size: u32) -> (builder: &mut Self)
        ensures
            *builder == (CartridgeMetadataBuilder { chr_save_ram_size: Some(chr_save_ram_size), ..*old(self) }),
            *final(self) == *final(builder),
    {
        self.chr_save_ram_size = Some(chr_save_ram_size);
        self
    }

    pub fn console_type(&mut self, console_type: ConsoleType) -> (builder: &mut Self)
        ensures
            *builder == (CartridgeMetadataBuilder { console_type: Some(console_type), ..*old(self) }),
            *final(self) == *final(builder),
    {
        self.console_type = Some(console_type);
        self
    }

    pub fn timing_mode(&mut self, timing_mode: TimingMode) -> (builder: &mut Self)
        ensures
            *builder == (CartridgeMetadataBuilder { timing_mode: Some(timing_mode), ..*old(self) }),
            *final(self) == *final(builder),
    {
        self.timing_mode = Some(timing_mode);
        self
    }

    pub fn miscellaneous_rom_count(&mut self, miscellaneous_rom_count: u8) -> (builder: &mut Self)
        ensures
            *builder == (CartridgeMetadataBuilder { miscellaneous_rom_count: Some(miscellaneous_rom_count), ..*old(self) }),
            *final(self) == *final(builder),
    {
        self.miscellaneous_rom_count = Some(miscellaneous_rom_count);
        self
    }

    pub fn default_expansion_device(&mut self, default_expansion_device: ExpansionDevice) -> (builder: &mut Self)
        ensures
            *builder == (CartridgeMetadataBuilder { default_expansion_device: Some(default_expansion_device), ..*old(self) }),
            *final(self) == *final(builder),
    {
        self.default_expansion_device = Some(default_expansion_device);
        self
    }

    pub fn vs_hardware_type(&mut self, vs_hardware_type: VsHardwareType) -> (builder: &mut Self)
        ensures
            *builder == (CartridgeMetadataBuilder { vs_hardware_type: Some(vs_hardware_type), ..*old(self) }),
            *final(self) == *final(builder),
    {
        self.vs_hardware_type = Some(vs_hardware_type);
        self
    }

    pub fn vs_ppu_type(&mut self, vs_ppu_type: VsPpuType) -> (builder: &mut Self)
        ensures
            *builder == (CartridgeMetadataBuilder { vs_ppu_type: Some(vs_ppu_type), ..*old(self) }),
            *final(self) == *final(builder),
    {
        self.vs_ppu_type = Some(vs_ppu_type);
        self
    }

    pub fn build(&mut self) -> (metadata: CartridgeMetadata)
        ensures metadata == old(self).spec_build(), *final(self) == *old(self),
    {
        CartridgeMetadata {
            mapper_number: self.mapper_number,
            submapper_number: self.submapper_number,
            name_table_mirroring_index: self.name_table_mirroring_index,
            name_table_mirroring: self.name_table_mirroring,
            has_persistent_memory: self.has_persistent_memory,
            full_hash: self.full_hash,
            prg_rom_hash: self.prg_rom_hash,
            chr_rom_hash: self.chr_rom_hash,
            trainer_hash: self.trainer_hash,
            prg_rom_size: self.prg_rom_size,
            prg_work_ram_size: self.prg_work_ram_size,
            prg_save_ram_size: self.prg_save_ram_size,
            chr_rom_size: self.chr_rom_size,
            chr_work_ram_size: self.chr_work_ram_size,
            chr_save_ram_size: self.chr_save_ram_size,
            console_type: self.console_type,
            timing_mode: self.timing_mode,
            miscellaneous_rom_count: self.miscellaneous_rom_count,
            default_expansion_device: self.default_expansion_device,
            vs_hardware_type: self.vs_hardware_type,
            vs_ppu_type: self.vs_ppu_type,
        }
    }
}

/// The kind of console a cartridge was made for.
#[derive(PartialEq, Eq, Clone, Copy, Debug, Structural)]
pub enum ConsoleType {
    NesFamiconDendy,
    Vs,
    PlayChoice10,
    DecimalModeFamiclone,
    NesFamiconWithEpsm,
    Vt01,
    Vt02,
    Vt03,
    Vt09,
    Vt32,
    Vt369,
    UmcUm6578,
    FamiconNetworkSystem,
}

/// The text that names a console type.
pub open spec fn console_type_text(console_type: ConsoleType) -> Seq<char> {
    match console_type {
        ConsoleType::NesFamiconDendy => "NES/Famicon/Dendy"@,
        ConsoleType::Vs => "VS"@,
        ConsoleType::PlayChoice10 => "Play Choice 10"@,
        ConsoleType::DecimalModeFamiclone => "Famicon with Decimal Mode CPU"@,
        ConsoleType::NesFamiconWithEpsm => "NES/Famicon with EPSM module"@,
        ConsoleType::Vt01 => "V.R. Technology VT01"@,
        ConsoleType::Vt02 => "V.R. Technology VT02"@,
        ConsoleType::Vt03 => "V.R. Technology VT03"@,
        ConsoleType::Vt09 => "V.R. Technology VT09"@,
        ConsoleType::Vt32 => "V.R. Technology VT32"@,
        ConsoleType::Vt369 => "V.R. Technology VT369"@,
        ConsoleType::UmcUm6578 => "V.R. Technology VT01"@,
        ConsoleType::FamiconNetworkSystem => "Famicon Network System"@,
    }
}

impl ConsoleType {
    /// The console type of a basic (iNES byte 7) console type field. Only the NES/Famicom/Dendy
    /// type is supported so far.
    pub fn basic(basic_console_type: u8) -> (console_type: Self)
        requires
            basic_console_type == 0,
        ensures
            console_type == ConsoleType::NesFamiconDendy,
    {
        Self::from_u8(basic_console_type)
    }

    /// The console type of a basic field and, for the extended type 3, an extended field. Only
    /// the NES/Famicom/Dendy type is supported so far.
    pub fn extended(basic_console_type: u8, extended_console_type: u8) -> (console_type: Self)
        requires
            basic_console_type == 0,
        ensures
            console_type == ConsoleType::NesFamiconDendy,
    {
        Self::from_u8(basic_console_type)
    }

    fn from_u8(value: u8) -> (console_type: Self)
        requires
            value == 0,
        ensures
            console_type == ConsoleType::NesFamiconDendy,
    {
        match value {
            0 => ConsoleType::NesFamiconDendy,
            1 => ConsoleType::Vs,
            2 => ConsoleType::PlayChoice10,
            3 => ConsoleType::DecimalModeFamiclone,
            4 => ConsoleType::NesFamiconWithEpsm,
            5 => ConsoleType::Vt01,
            6 => ConsoleType::Vt02,
            7 => ConsoleType::Vt03,
            8 => ConsoleType::Vt09,
            9 => ConsoleType::Vt32,
            10 => ConsoleType::Vt369,
            11 => ConsoleType::UmcUm6578,
            12 => ConsoleType::FamiconNetworkSystem,
            _ => ConsoleType::NesFamiconDendy,
        }
    }

    /// The name of the console type, as it is displayed.
    pub fn to_string(&self) -> (text: String)
        ensures
            text@ == console_type_text(*self),
    {
        match self {
            ConsoleType::NesFamiconDendy => String::from_str("NES/Famicon/Dendy"),
            ConsoleType::Vs => String::from_str("VS"),
            ConsoleType::PlayChoice10 => String::from_str("Play Choice 10"),
            ConsoleType::DecimalModeFamiclone => String::from_str("Famicon with Decimal Mode CPU"),
            ConsoleType::NesFamiconWithEpsm => String::from_str("NES/Famicon with EPSM module"),
            ConsoleType::Vt01 => String::from_str("V.R. Technology VT01"),
            ConsoleType::Vt02 => String::from_str("V.R. Technology VT02"),
            ConsoleType::Vt03 => String::from_str("V.R. Technology VT03"),
            ConsoleType::Vt09 => String::from_str("V.R. Technology VT09"),
            ConsoleType::Vt32 => String::from_str("V.R. Technology VT32"),
            ConsoleType::Vt369 => String::from_str("V.R. Technology VT369"),
            ConsoleType::UmcUm6578 => String::from_str("V.R. Technology VT01"),
            ConsoleType::FamiconNetworkSystem => String::from_str("Famicon Network System"),
        }
    }
}

impl Default for ConsoleType {
    fn default() -> (console_type: Self)
        ensures console_type == ConsoleType::NesFamiconDendy,
    {
        ConsoleType::NesFamiconDendy
    }
}

/// The CPU/PPU timing that a cartridge expects.
#[derive(Clone, Copy, Debug)]
pub enum TimingMode {
    Ntsc,
    Pal,
    MultiRegion,
    Dendy,
}

impl Default for TimingMode {
    fn default() -> (value: Self)
        ensures value == TimingMode::Ntsc,
    {
        TimingMode::Ntsc
    }
}

/// The VS System hardware, with its copy protection.
#[derive(Clone, Copy, Debug)]
pub enum VsHardwareType {
    Unisystem,
    UnisystemRbiBaseballProtection,
    UnisystemTkoBoxingProtection,
    UnisystemSuperXeviousProtection,
    UnisystemIceClimberProtection,
    DualSystem,
    DualSystemRaidOnBungelingBayProtection,
}

impl Default for VsHardwareType {
    fn default() -> (value: Self)
        ensures value == VsHardwareType::Unisystem,
    {
        VsHardwareType::Unisystem
    }
}

/// The PPU of a VS System (its number in NES 2.0 is its position, with 1, 7 and 12 and up reserved).
#[derive(Clone, Copy, Debug)]
pub enum VsPpuType {
    Rp2c03Rc2c03,
    Rp2c04_0001,
    Rp2c04_0002,
    Rp2c04_0003,
    Rp2c04_0004,
    StrokeAndGolf,
    Rc2c05_01,
    Rc2c05_02,
    Rc2c05_03,
    Rc2c05_04,
}

impl Default for VsPpuType {
    fn default() -> (value: Self)
        ensures value == VsPpuType::Rp2c03Rc2c03,
    {
        VsPpuType::Rp2c03Rc2c03
    }
}

/// The input device that a cartridge expects by default.
#[derive(Clone, Copy, Debug)]
pub enum ExpansionDevice {
    Unspecified,
    StandardNesFamicomControllers,
    NesFourScoreSatellite,
    FamicomFourPlayersAdapter,
    VsSystem4016,
    VsSystem4017,
    VsPinballController,
    VsZapper,
    Zapper4017,
    TwoZappers,
    BandaiHyperShotLightgun,
    PowerPadSideA,
    PowerPadSideB,
    FamilyTrainerSideA,
    FamilyTrainerSideB,
    ArkanoidVausControllerNes,
    ArkanoidVausControllerFamicom,
    TwoVausControllersPlusFamicomDataRecorder,
    KonamiHyperShotController,
    CoconutsPachinkoController,
    ExcitingBoxingPunchingBagBlowupDoll,
    JissenMahjongController,
    PartyTap,
    OekaKidsTablet,
    SunsoftBarcodeBattler,
    MiraclePianoKeyboard,
    PokkunMoguraa,
    TopRider,
    DoubleFisted,
    Famicom3DSystem,
    DoremikkoKeyboard,
    RobGyroSet,
    FamicomDataRecorder,
    AsciiTurboFile,
    IgsStorageBattleBox,
    FamilyBasicKeyboardPlusFamicomDataRecorder,
    PecKeyboard,
    Bit79Keyboard,
    SuborKeyboard,
    SuborKeyboardPlusMacroWinnersMouse,
    SuborKeyboardPlusSuborMouse,
    SnesMouse4016,
    Multicart,
    TwoSnesControllers,
    RacerMateBicycle,
    UForce,
    RobStackUp,
    CityPatrolmanLightgun,
    SharpC1CassetteInterface,
    StandardControllerWithSwappedButtons,
    ExcaliburSudokuPad,
    AblPinball,
    GoldenNuggetCasinoExtraButtons,
    KedaKeyboard,
    SuborKeyboardPlusSuborMouse4017,
    PortTestController,
    BandaiMultiGamePlayerGamepadButtons,
    VenomTVDanceMat,
    LgTvRemoteControl,
    FamicomNetworkController,
    KingFishingController,
    CroakyKaraokeController,
    KingwonKeyboard,
    ZechengKeyboard,
    SuborKeyboardPlusL90RotatedPs2Mouse4017,
    Ps2KeyboardPlusPs2Mouse4017,
    Ps2Mouse,
    YuxingMouse4016,
    SuborKeyboardPlusYuxingMouse4016,
    GigggleTvPump,
    BbkKeyboardPlusPs2Mouse4017,
    MagicalCooking,
    SnesMouse4017,
    Zapper4016,
    ArkanoidVausControllerPrototype,
    TVMahjongGameController,
    MahjongGekitouDensetsuController,
    SuborKeyboardPlusPs2Mouse4017,
    IbmPcXtKeyboard,
}

impl Default for ExpansionDevice {
    fn default() -> (value: Self)
        ensures value == ExpansionDevice::StandardNesFamicomControllers,
    {
        ExpansionDevice::StandardNesFamicomControllers
    }
}


/// Turning metadata into a builder and building it gives the metadata back.
pub proof fn lemma_metadata_builder_round_trip(metadata: CartridgeMetadata)
    ensures
        metadata.spec_into_builder().spec_build() == metadata,
{
}

} // verus!

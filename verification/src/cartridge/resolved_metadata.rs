use vstd::prelude::*;

use crate::cartridge::cartridge_metadata::{
    CartridgeMetadata, CartridgeMetadataBuilder, ConsoleType, ExpansionDevice, TimingMode, VsHardwareType, VsPpuType,
};
use crate::ppu::name_table_mirroring::NameTableMirroring;
use crate::util::text::{decimal, padded_left, push_decimal, push_padded_decimal, push_text, string_from_chars};

verus! {

pub const KIBIBYTE: u32 = 1024;

/// The first value that is known, in order; none if no value is.
pub open spec fn first_known<T>(values: Seq<Option<T>>) -> Option<T>
    decreases values.len(),
{
    if values.len() == 0 {
        None
    } else if values[0] is Some {
        values[0]
    } else {
        first_known(values.drop_first())
    }
}

/// What the metadata sources say of one field, taken from the first source that knows it.
pub open spec fn resolved<T>(sources: Seq<CartridgeMetadata>, field: spec_fn(CartridgeMetadata) -> Option<T>) -> Option<T> {
    first_known(sources.map_values(field))
}

/// Once some value is known, a first known value exists.
pub proof fn lemma_first_known_exists<T>(values: Seq<Option<T>>, i: int)
    requires
        0 <= i < values.len(),
        values[i] is Some,
    ensures
        first_known(values) is Some,
    decreases i,
{
    if values[0] is None {
        lemma_first_known_exists(values.drop_first(), i - 1);
    }
}

/// Picks the first known value.
fn resolve_field<T: Copy>(values: &[Option<T>]) -> (resolved: Option<T>)
    ensures
        resolved == first_known(values@),
{
    let mut i: usize = 0;
    assert(values@.skip(0) =~= values@);
    while i < values.len()
        invariant
            i <= values@.len(),
            first_known(values@) == first_known(values@.skip(i as int)),
        decreases values@.len() - i,
    {
        let value = values[i];
        if value.is_some() {
            assert(values@.skip(i as int)[0] == value);
            return value;
        }
        assert(values@.skip(i as int).drop_first() =~= values@.skip(i + 1));
        i = i + 1;
    }
    assert(values@.skip(i as int).len() == 0);
    None
}

/// The VS System hardware and PPU of a cartridge.
#[derive(Clone, Copy, Debug)]
pub struct Vs {
    pub hardware_type: VsHardwareType,
    pub ppu_type: VsPpuType,
}

impl Default for Vs {
    fn default() -> (vs: Self)
        ensures vs == (Vs { hardware_type: VsHardwareType::Unisystem, ppu_type: VsPpuType::Rp2c03Rc2c03 }),
    {
        Vs { hardware_type: VsHardwareType::Unisystem, ppu_type: VsPpuType::Rp2c03Rc2c03 }
    }
}

/// The metadata that the emulator runs a cartridge with, every source taken into account.
#[derive(Clone, Copy, Debug)]
pub struct ResolvedMetadata {
    pub mapper_number: u16,
    pub submapper_number: Option<u8>,

    pub name_table_mirroring: Option<NameTableMirroring>,
    pub has_persistent_memory: bool,

    pub full_hash: u32,
    pub prg_rom_hash: u32,
    pub chr_rom_hash: u32,

    pub prg_rom_size: u32,
    pub prg_work_ram_size: u32,
    pub prg_save_ram_size: u32,

    pub chr_rom_size: u32,
    pub chr_work_ram_size: u32,
    pub chr_save_ram_size: u32,

    pub console_type: ConsoleType,
    pub region_timing_mode: TimingMode,
    pub miscellaneous_rom_count: u8,
    pub default_expansion_device: ExpansionDevice,
    pub vs: Option<Vs>,
}

/// One line of memory sizes: ROM, work RAM and save RAM, each in KiB, right-aligned in four
/// characters.
pub open spec fn sizes_line(kind: Seq<char>, rom: u32, work_ram: u32, save_ram: u32) -> Seq<char> {
    kind + " ROM: "@ + padded_left(decimal((rom / KIBIBYTE) as nat), 4) + "KiB, WorkRAM: "@
        + padded_left(decimal((work_ram / KIBIBYTE) as nat), 4) + "KiB, SaveRAM: "@
        + padded_left(decimal((save_ram / KIBIBYTE) as nat), 4) + "KiB\n"@
}

fn push_sizes_line(out: &mut Vec<char>, kind: &str, rom: u32, work_ram: u32, save_ram: u32)
    ensures
        final(out)@ == old(out)@ + sizes_line(kind@, rom, work_ram, save_ram),
{
    push_text(out, kind);
    push_text(out, " ROM: ");
    push_padded_decimal(out, rom / KIBIBYTE, 4);
    push_text(out, "KiB, WorkRAM: ");
    push_padded_decimal(out, work_ram / KIBIBYTE, 4);
    push_text(out, "KiB, SaveRAM: ");
    push_padded_decimal(out, save_ram / KIBIBYTE, 4);
    push_text(out, "KiB\n");
    assert(out@ =~= old(out)@ + sizes_line(kind@, rom, work_ram, save_ram));
}

impl ResolvedMetadata {
    /// The mapper (and submapper) numbers on one line, then the PRG and CHR memory sizes.
    pub fn to_string(&self) -> (text: String)
        ensures
            text@ == "Mapper: "@ + decimal(self.mapper_number as nat) + (match self.submapper_number {
                Some(submapper_number) => " (Submapper: "@ + decimal(submapper_number as nat) + ")"@,
                None => Seq::<char>::empty(),
            }) + "\n"@
                + sizes_line("PRG"@, self.prg_rom_size, self.prg_work_ram_size, self.prg_save_ram_size)
                + sizes_line("CHR"@, self.chr_rom_size, self.chr_work_ram_size, self.chr_save_ram_size),
    {
        let mut chars: Vec<char> = Vec::new();
        push_text(&mut chars, "Mapper: ");
        push_decimal(&mut chars, self.mapper_number as u64);
        let ghost mapper_part = chars@;
        if let Some(submapper_number) = self.submapper_number {
            push_text(&mut chars, " (Submapper: ");
            push_decimal(&mut chars, submapper_number as u64);
            push_text(&mut chars, ")");
        }
        let ghost with_submapper = chars@;
        assert(with_submapper =~= mapper_part + (match self.submapper_number {
            Some(submapper_number) => " (Submapper: "@ + decimal(submapper_number as nat) + ")"@,
            None => Seq::<char>::empty(),
        }));
        push_text(&mut chars, "\n");
        push_sizes_line(&mut chars, "PRG", self.prg_rom_size, self.prg_work_ram_size, self.prg_save_ram_size);
        push_sizes_line(&mut chars, "CHR", self.chr_rom_size, self.chr_work_ram_size, self.chr_save_ram_size);
        assert(chars@ =~= "Mapper: "@ + decimal(self.mapper_number as nat) + (match self.submapper_number {
            Some(submapper_number) => " (Submapper: "@ + decimal(submapper_number as nat) + ")"@,
            None => Seq::<char>::empty(),
        }) + "\n"@
            + sizes_line("PRG"@, self.prg_rom_size, self.prg_work_ram_size, self.prg_save_ram_size)
            + sizes_line("CHR"@, self.chr_rom_size, self.chr_work_ram_size, self.chr_save_ram_size));
        string_from_chars(&chars)
    }
}

impl Default for ResolvedMetadata {
    fn default() -> (metadata: Self)
        ensures
            metadata == (ResolvedMetadata {
                mapper_number: 0,
                submapper_number: None,
                name_table_mirroring: None,
                has_persistent_memory: false,
                full_hash: 0,
                prg_rom_hash: 0,
                chr_rom_hash: 0,
                prg_rom_size: 0,
                prg_work_ram_size: 0,
                prg_save_ram_size: 0,
                chr_rom_size: 0,
                chr_work_ram_size: 0,
                chr_save_ram_size: 0,
                console_type: ConsoleType::NesFamiconDendy,
                region_timing_mode: TimingMode::Ntsc,
                miscellaneous_rom_count: 0,
                default_expansion_device: ExpansionDevice::StandardNesFamicomControllers,
                vs: None,
            }),
    {
        ResolvedMetadata {
            mapper_number: 0,
            submapper_number: None,
            name_table_mirroring: None,
            has_persistent_memory: false,
            full_hash: 0,
            prg_rom_hash: 0,
            chr_rom_hash: 0,
            prg_rom_size: 0,
            prg_work_ram_size: 0,
            prg_save_ram_size: 0,
            chr_rom_size: 0,
            chr_work_ram_size: 0,
            chr_save_ram_size: 0,
            console_type: ConsoleType::NesFamiconDendy,
            region_timing_mode: TimingMode::Ntsc,
            miscellaneous_rom_count: 0,
            default_expansion_device: ExpansionDevice::StandardNesFamicomControllers,
            vs: None,
        }
    }
}

/// The sources of cartridge metadata, from the most to the least trusted, and what the cartridge's
/// memory layout allows.
#[derive(Clone, Copy, Debug)]
pub struct MetadataResolver {
    pub hard_coded_overrides: CartridgeMetadata,
    pub cartridge: CartridgeMetadata,
    pub database: CartridgeMetadata,
    pub database_extension: CartridgeMetadata,
    pub layout_supports_prg_ram: bool,
}


impl MetadataResolver {
    /// The sources that the defaults consult, in order.
    pub open spec fn default_sources(self) -> Seq<CartridgeMetadata> {
        seq![self.hard_coded_overrides, self.database_extension, self.cartridge, self.database]
    }

    /// The defaults consult a console type, which some source must give.
    pub open spec fn console_type_known(self) -> bool {
        resolved(self.default_sources(), |m: CartridgeMetadata| m.console_type) is Some
    }

    /// The metadata assumed where no source says otherwise.
    pub open spec fn spec_defaults(self) -> CartridgeMetadata {
        let play_choice = resolved(self.default_sources(), |m: CartridgeMetadata| m.console_type)
            == Some(ConsoleType::PlayChoice10);
        CartridgeMetadata {
            mapper_number: None,
            submapper_number: None,
            name_table_mirroring_index: None,
            name_table_mirroring: None,
            has_persistent_memory: None,
            full_hash: None,
            prg_rom_hash: None,
            chr_rom_hash: None,
            trainer_hash: None,
            prg_rom_size: None,
            prg_work_ram_size: Some(if self.layout_supports_prg_ram { 8192u32 } else { 0u32 }),
            prg_save_ram_size: Some(0u32),
            chr_rom_size: None,
            chr_work_ram_size: Some(if (self.cartridge.chr_rom_size is None || self.cartridge.chr_rom_size == Some(0u32))
                && resolved(self.default_sources(), |m: CartridgeMetadata| m.chr_work_ram_size) is None
                && resolved(self.default_sources(), |m: CartridgeMetadata| m.chr_save_ram_size) is None {
                8192u32
            } else {
                0u32
            }),
            chr_save_ram_size: Some(0u32),
            console_type: None,
            timing_mode: Some(TimingMode::Ntsc),
            miscellaneous_rom_count: Some(0u8),
            default_expansion_device: Some(ExpansionDevice::StandardNesFamicomControllers),
            vs_hardware_type: if play_choice { Some(VsHardwareType::Unisystem) } else { None },
            vs_ppu_type: if play_choice { Some(VsPpuType::Rp2c03Rc2c03) } else { None },
        }
    }

    /// The sources that resolution consults, in order: overrides, cartridge, database, database
    /// extension, defaults.
    pub open spec fn sources(self) -> Seq<CartridgeMetadata> {
        seq![self.hard_coded_overrides, self.cartridge, self.database, self.database_extension, self.spec_defaults()]
    }

    /// Resolution needs a mapper number, persistence and console type from some source, and the
    /// hashes and ROM sizes from the cartridge.
    pub open spec fn resolvable(self) -> bool {
        &&& self.console_type_known()
        &&& resolved(self.sources(), |m: CartridgeMetadata| m.mapper_number) is Some
        &&& resolved(self.sources(), |m: CartridgeMetadata| m.has_persistent_memory) is Some
        &&& resolved(self.sources(), |m: CartridgeMetadata| m.console_type) is Some
        &&& self.cartridge.full_hash is Some
        &&& self.cartridge.prg_rom_hash is Some
        &&& self.cartridge.chr_rom_hash is Some
        &&& self.cartridge.prg_rom_size is Some
        &&& self.cartridge.chr_rom_size is Some
    }

    /// Each field from the first source that knows it; the hashes and ROM sizes from the cartridge.
    pub open spec fn spec_resolve(self) -> ResolvedMetadata {
        let s = self.sources();
        let hardware_type = resolved(s, |m: CartridgeMetadata| m.vs_hardware_type);
        let ppu_type = resolved(s, |m: CartridgeMetadata| m.vs_ppu_type);
        ResolvedMetadata {
            mapper_number: resolved(s, |m: CartridgeMetadata| m.mapper_number).unwrap(),
            submapper_number: resolved(s, |m: CartridgeMetadata| m.submapper_number),
            name_table_mirroring: resolved(s, |m: CartridgeMetadata| m.name_table_mirroring),
            has_persistent_memory: resolved(s, |m: CartridgeMetadata| m.has_persistent_memory).unwrap(),
            full_hash: self.cartridge.full_hash.unwrap(),
            prg_rom_hash: self.cartridge.prg_rom_hash.unwrap(),
            chr_rom_hash: self.cartridge.chr_rom_hash.unwrap(),
            prg_rom_size: self.cartridge.prg_rom_size.unwrap(),
            prg_work_ram_size: resolved(s, |m: CartridgeMetadata| m.prg_work_ram_size).unwrap(),
            prg_save_ram_size: resolved(s, |m: CartridgeMetadata| m.prg_save_ram_size).unwrap(),
            chr_rom_size: self.cartridge.chr_rom_size.unwrap(),
            chr_work_ram_size: resolved(s, |m: CartridgeMetadata| m.chr_work_ram_size).unwrap(),
            chr_save_ram_size: resolved(s, |m: CartridgeMetadata| m.chr_save_ram_size).unwrap(),
            console_type: resolved(s, |m: CartridgeMetadata| m.console_type).unwrap(),
            region_timing_mode: resolved(s, |m: CartridgeMetadata| m.timing_mode).unwrap(),
            miscellaneous_rom_count: resolved(s, |m: CartridgeMetadata| m.miscellaneous_rom_count).unwrap(),
            default_expansion_device: resolved(s, |m: CartridgeMetadata| m.default_expansion_device).unwrap(),
            vs: if hardware_type is Some && ppu_type is Some {
                Some(Vs { hardware_type: hardware_type.unwrap(), ppu_type: ppu_type.unwrap() })
            } else {
                None
            },
        }
    }

    /// Resolves every field, each from the first source that knows it.
    pub fn resolve(&self) -> (metadata: ResolvedMetadata)
        requires
            self.resolvable(),
        ensures
            metadata == self.spec_resolve(),
    {
        let defaults = self.defaults();
        let all = [self.hard_coded_overrides, self.cartridge, self.database, self.database_extension, defaults];
        assert(all@ =~= self.sources());

        let mapper_number = resolve_field(&[all[0].mapper_number, all[1].mapper_number, all[2].mapper_number, all[3].mapper_number, all[4].mapper_number]);
        assert([all[0].mapper_number, all[1].mapper_number, all[2].mapper_number, all[3].mapper_number, all[4].mapper_number]@ =~= self.sources().map_values(|m: CartridgeMetadata| m.mapper_number));
        let submapper_number = resolve_field(&[all[0].submapper_number, all[1].submapper_number, all[2].submapper_number, all[3].submapper_number, all[4].submapper_number]);
        assert([all[0].submapper_number, all[1].submapper_number, all[2].submapper_number, all[3].submapper_number, all[4].submapper_number]@ =~= self.sources().map_values(|m: CartridgeMetadata| m.submapper_number));
        let name_table_mirroring = resolve_field(&[all[0].name_table_mirroring, all[1].name_table_mirroring, all[2].name_table_mirroring, all[3].name_table_mirroring, all[4].name_table_mirroring]);
        assert([all[0].name_table_mirroring, all[1].name_table_mirroring, all[2].name_table_mirroring, all[3].name_table_mirroring, all[4].name_table_mirroring]@ =~= self.sources().map_values(|m: CartridgeMetadata| m.name_table_mirroring));
        let has_persistent_memory = resolve_field(&[all[0].has_persistent_memory, all[1].has_persistent_memory, all[2].has_persistent_memory, all[3].has_persistent_memory, all[4].has_persistent_memory]);
        assert([all[0].has_persistent_memory, all[1].has_persistent_memory, all[2].has_persistent_memory, all[3].has_persistent_memory, all[4].has_persistent_memory]@ =~= self.sources().map_values(|m: CartridgeMetadata| m.has_persistent_memory));
        let prg_work_ram_size = resolve_field(&[all[0].prg_work_ram_size, all[1].prg_work_ram_size, all[2].prg_work_ram_size, all[3].prg_work_ram_size, all[4].prg_work_ram_size]);
        assert([all[0].prg_work_ram_size, all[1].prg_work_ram_size, all[2].prg_work_ram_size, all[3].prg_work_ram_size, all[4].prg_work_ram_size]@ =~= self.sources().map_values(|m: CartridgeMetadata| m.prg_work_ram_size));
        proof { lemma_first_known_exists(self.sources().map_values(|m: CartridgeMetadata| m.prg_work_ram_size), 4); }
        let prg_save_ram_size = resolve_field(&[all[0].prg_save_ram_size, all[1].prg_save_ram_size, all[2].prg_save_ram_size, all[3].prg_save_ram_size, all[4].prg_save_ram_size]);
        assert([all[0].prg_save_ram_size, all[1].prg_save_ram_size, all[2].prg_save_ram_size, all[3].prg_save_ram_size, all[4].prg_save_ram_size]@ =~= self.sources().map_values(|m: CartridgeMetadata| m.prg_save_ram_size));
        proof { lemma_first_known_exists(self.sources().map_values(|m: CartridgeMetadata| m.prg_save_ram_size), 4); }
        let chr_work_ram_size = resolve_field(&[all[0].chr_work_ram_size, all[1].chr_work_ram_size, all[2].chr_work_ram_size, all[3].chr_work_ram_size, all[4].chr_work_ram_size]);
        assert([all[0].chr_work_ram_size, all[1].chr_work_ram_size, all[2].chr_work_ram_size, all[3].chr_work_ram_size, all[4].chr_work_ram_size]@ =~= self.sources().map_values(|m: CartridgeMetadata| m.chr_work_ram_size));
        proof { lemma_first_known_exists(self.sources().map_values(|m: CartridgeMetadata| m.chr_work_ram_size), 4); }
        let chr_save_ram_size = resolve_field(&[all[0].chr_save_ram_size, all[1].chr_save_ram_size, all[2].chr_save_ram_size, all[3].chr_save_ram_size, all[4].chr_save_ram_size]);
        assert([all[0].chr_save_ram_size, all[1].chr_save_ram_size, all[2].chr_save_ram_size, all[3].chr_save_ram_size, all[4].chr_save_ram_size]@ =~= self.sources().map_values(|m: CartridgeMetadata| m.chr_save_ram_size));
        proof { lemma_first_known_exists(self.sources().map_values(|m: CartridgeMetadata| m.chr_save_ram_size), 4); }
        let console_type = resolve_field(&[all[0].console_type, all[1].console_type, all[2].console_type, all[3].console_type, all[4].console_type]);
        assert([all[0].console_type, all[1].console_type, all[2].console_type, all[3].console_type, all[4].console_type]@ =~= self.sources().map_values(|m: CartridgeMetadata| m.console_type));
        let timing_mode = resolve_field(&[all[0].timing_mode, all[1].timing_mode, all[2].timing_mode, all[3].timing_mode, all[4].timing_mode]);
        assert([all[0].timing_mode, all[1].timing_mode, all[2].timing_mode, all[3].timing_mode, all[4].timing_mode]@ =~= self.sources().map_values(|m: CartridgeMetadata| m.timing_mode));
        proof { lemma_first_known_exists(self.sources().map_values(|m: CartridgeMetadata| m.timing_mode), 4); }
        let miscellaneous_rom_count = resolve_field(&[all[0].miscellaneous_rom_count, all[1].miscellaneous_rom_count, all[2].miscellaneous_rom_count, all[3].miscellaneous_rom_count, all[4].miscellaneous_rom_count]);
        assert([all[0].miscellaneous_rom_count, all[1].miscellaneous_rom_count, all[2].miscellaneous_rom_count, all[3].miscellaneous_rom_count, all[4].miscellaneous_rom_count]@ =~= self.sources().map_values(|m: CartridgeMetadata| m.miscellaneous_rom_count));
        proof { lemma_first_known_exists(self.sources().map_values(|m: CartridgeMetadata| m.miscellaneous_rom_count), 4); }
        let default_expansion_device = resolve_field(&[all[0].default_expansion_device, all[1].default_expansion_device, all[2].default_expansion_device, all[3].default_expansion_device, all[4].default_expansion_device]);
        assert([all[0].default_expansion_device, all[1].default_expansion_device, all[2].default_expansion_device, all[3].default_expansion_device, all[4].default_expansion_device]@ =~= self.sources().map_values(|m: CartridgeMetadata| m.default_expansion_device));
        proof { lemma_first_known_exists(self.sources().map_values(|m: CartridgeMetadata| m.default_expansion_device), 4); }
        let vs_hardware_type = resolve_field(&[all[0].vs_hardware_type, all[1].vs_hardware_type, all[2].vs_hardware_type, all[3].vs_hardware_type, all[4].vs_hardware_type]);
        assert([all[0].vs_hardware_type, all[1].vs_hardware_type, all[2].vs_hardware_type, all[3].vs_hardware_type, all[4].vs_hardware_type]@ =~= self.sources().map_values(|m: CartridgeMetadata| m.vs_hardware_type));
        let vs_ppu_type = resolve_field(&[all[0].vs_ppu_type, all[1].vs_ppu_type, all[2].vs_ppu_type, all[3].vs_ppu_type, all[4].vs_ppu_type]);
        assert([all[0].vs_ppu_type, all[1].vs_ppu_type, all[2].vs_ppu_type, all[3].vs_ppu_type, all[4].vs_ppu_type]@ =~= self.sources().map_values(|m: CartridgeMetadata| m.vs_ppu_type));

        let vs = match (vs_hardware_type, vs_ppu_type) {
            (Some(hardware_type), Some(ppu_type)) => Some(Vs { hardware_type, ppu_type }),
            _ => None,
        };
        ResolvedMetadata {
            mapper_number: mapper_number.unwrap(),
            submapper_number: submapper_number,
            name_table_mirroring: name_table_mirroring,
            has_persistent_memory: has_persistent_memory.unwrap(),
            prg_work_ram_size: prg_work_ram_size.unwrap(),
            prg_save_ram_size: prg_save_ram_size.unwrap(),
            chr_work_ram_size: chr_work_ram_size.unwrap(),
            chr_save_ram_size: chr_save_ram_size.unwrap(),
            console_type: console_type.unwrap(),
            region_timing_mode: timing_mode.unwrap(),
            miscellaneous_rom_count: miscellaneous_rom_count.unwrap(),
            default_expansion_device: default_expansion_device.unwrap(),
            full_hash: self.cartridge.full_hash.unwrap(),
            prg_rom_hash: self.cartridge.prg_rom_hash.unwrap(),
            chr_rom_hash: self.cartridge.chr_rom_hash.unwrap(),
            prg_rom_size: self.cartridge.prg_rom_size.unwrap(),
            chr_rom_size: self.cartridge.chr_rom_size.unwrap(),
            vs,
        }
    }

    /// The metadata assumed where no source says otherwise: PRG work RAM if the layout has room for
    /// it, CHR work RAM if the cartridge has neither CHR ROM nor other CHR RAM, NTSC timing,
    /// standard controllers, and for a PlayChoice-10 the VS Unisystem hardware.
    pub fn defaults(&self) -> (metadata: CartridgeMetadata)
        requires
            self.console_type_known(),
        ensures
            metadata == self.spec_defaults(),
    {
        let all = [self.hard_coded_overrides, self.database_extension, self.cartridge, self.database];
        assert(all@ =~= self.default_sources());

        let prg_work_ram_size = if self.layout_supports_prg_ram { 8 * KIBIBYTE } else { 0 };

        let chr_rom_size = self.cartridge.chr_rom_size;
        let chr_work_ram_size = resolve_field(&[all[0].chr_work_ram_size, all[1].chr_work_ram_size, all[2].chr_work_ram_size, all[3].chr_work_ram_size]);
        assert([all[0].chr_work_ram_size, all[1].chr_work_ram_size, all[2].chr_work_ram_size, all[3].chr_work_ram_size]@
            =~= self.default_sources().map_values(|m: CartridgeMetadata| m.chr_work_ram_size));
        let chr_save_ram_size = resolve_field(&[all[0].chr_save_ram_size, all[1].chr_save_ram_size, all[2].chr_save_ram_size, all[3].chr_save_ram_size]);
        assert([all[0].chr_save_ram_size, all[1].chr_save_ram_size, all[2].chr_save_ram_size, all[3].chr_save_ram_size]@
            =~= self.default_sources().map_values(|m: CartridgeMetadata| m.chr_save_ram_size));
        let no_chr_rom = match chr_rom_size {
            None => true,
            Some(size) => size == 0,
        };
        let chr_work_ram_size = if no_chr_rom && chr_work_ram_size.is_none() && chr_save_ram_size.is_none() {
            8 * KIBIBYTE
        } else {
            0
        };

        let mut builder = CartridgeMetadataBuilder::new();
        builder
            .prg_work_ram_size(prg_work_ram_size)
            .prg_save_ram_size(0)
            .chr_work_ram_size(chr_work_ram_size)
            .chr_save_ram_size(0)
            .timing_mode(TimingMode::Ntsc)
            .miscellaneous_rom_count(0)
            .default_expansion_device(ExpansionDevice::StandardNesFamicomControllers);

        let console_type = resolve_field(&[all[0].console_type, all[1].console_type, all[2].console_type, all[3].console_type]);
        assert([all[0].console_type, all[1].console_type, all[2].console_type, all[3].console_type]@
            =~= self.default_sources().map_values(|m: CartridgeMetadata| m.console_type));
        let console_type = console_type.unwrap();
        if console_type == ConsoleType::PlayChoice10 {
            builder
                .vs_hardware_type(VsHardwareType::Unisystem)
                .vs_ppu_type(VsPpuType::Rp2c03Rc2c03);
        }

        builder.build()
    }
}


/// The first source that knows a field decides it.
pub proof fn lemma_first_source_decides<T>(sources: Seq<CartridgeMetadata>, field: spec_fn(CartridgeMetadata) -> Option<T>)
    requires
        sources.len() > 0,
        field(sources[0]) is Some,
    ensures
        resolved(sources, field) == field(sources[0]),
{
    assert(sources.map_values(field)[0] == field(sources[0]));
}

/// A source that does not know a field is passed over for it.
pub proof fn lemma_unknown_source_passed_over<T>(sources: Seq<CartridgeMetadata>, field: spec_fn(CartridgeMetadata) -> Option<T>)
    requires
        sources.len() > 0,
        field(sources[0]) is None,
    ensures
        resolved(sources, field) == resolved(sources.drop_first(), field),
{
    assert(sources.map_values(field)[0] == field(sources[0]));
    assert(sources.map_values(field).drop_first() =~= sources.drop_first().map_values(field));
}

/// A hard-coded override wins over the cartridge, the database and the defaults.
pub proof fn lemma_hard_coded_override_wins(resolver: MetadataResolver)
    requires
        resolver.resolvable(),
        resolver.hard_coded_overrides.mapper_number is Some,
        resolver.hard_coded_overrides.name_table_mirroring is Some,
    ensures
        resolver.spec_resolve().mapper_number == resolver.hard_coded_overrides.mapper_number.unwrap(),
        resolver.spec_resolve().name_table_mirroring == resolver.hard_coded_overrides.name_table_mirroring,
{
    lemma_first_source_decides(resolver.sources(), |m: CartridgeMetadata| m.mapper_number);
    lemma_first_source_decides(resolver.sources(), |m: CartridgeMetadata| m.name_table_mirroring);
}

/// What the cartridge says stands where no override says otherwise.
pub proof fn lemma_cartridge_wins_without_override(resolver: MetadataResolver)
    requires
        resolver.resolvable(),
        resolver.hard_coded_overrides.mapper_number is None,
        resolver.cartridge.mapper_number is Some,
    ensures
        resolver.spec_resolve().mapper_number == resolver.cartridge.mapper_number.unwrap(),
{
    let f = |m: CartridgeMetadata| m.mapper_number;
    lemma_unknown_source_passed_over(resolver.sources(), f);
    lemma_first_source_decides(resolver.sources().drop_first(), f);
}

/// A field that no source knows stays unknown.
pub proof fn lemma_unknown_everywhere<T>(sources: Seq<CartridgeMetadata>, field: spec_fn(CartridgeMetadata) -> Option<T>)
    requires
        forall|i: int| 0 <= i < sources.len() ==> (#[trigger] field(sources[i])) is None,
    ensures
        resolved(sources, field) is None,
    decreases sources.len(),
{
    if sources.len() > 0 {
        lemma_unknown_source_passed_over(sources, field);
        assert forall|i: int| 0 <= i < sources.drop_first().len() implies (#[trigger] field(sources.drop_first()[i])) is None by {
            assert(sources.drop_first()[i] == sources[i + 1]);
        }
        lemma_unknown_everywhere(sources.drop_first(), field);
    } else {
        assert(sources.map_values(field).len() == 0);
    }
}

/// Where neither the overrides, the cartridge, the database nor its extension know a field, the
/// defaults decide it.
proof fn lemma_defaults_decide<T>(resolver: MetadataResolver, field: spec_fn(CartridgeMetadata) -> Option<T>)
    requires
        field(resolver.hard_coded_overrides) is None,
        field(resolver.cartridge) is None,
        field(resolver.database) is None,
        field(resolver.database_extension) is None,
    ensures
        resolved(resolver.sources(), field) == field(resolver.spec_defaults()),
{
    let s = resolver.sources();
    lemma_unknown_source_passed_over(s, field);
    lemma_unknown_source_passed_over(s.drop_first(), field);
    lemma_unknown_source_passed_over(s.drop_first().drop_first(), field);
    lemma_unknown_source_passed_over(s.drop_first().drop_first().drop_first(), field);
    let last = s.drop_first().drop_first().drop_first().drop_first();
    assert(last =~= seq![resolver.spec_defaults()]);
    let values = last.map_values(field);
    assert(values.len() == 1);
    assert(values[0] == field(resolver.spec_defaults()));
    assert(resolved(last, field) == first_known(values));
    if values[0] is None {
        assert(values.drop_first().len() == 0);
        assert(first_known(values.drop_first()) is None);
    }
    assert(first_known(values) == values[0]);
}

/// Law of the CHR RAM default: where no source gives a CHR work RAM size, a cartridge with CHR
/// ROM gets none; one without CHR ROM gets 8 KiB of it, unless some source gives a CHR save RAM
/// size, in which case it gets none either.
#[verifier::spinoff_prover]
pub proof fn lemma_chr_work_ram_default(resolver: MetadataResolver)
    requires
        resolver.hard_coded_overrides.chr_work_ram_size is None,
        resolver.cartridge.chr_work_ram_size is None,
        resolver.database.chr_work_ram_size is None,
        resolver.database_extension.chr_work_ram_size is None,
    ensures
        (resolver.cartridge.chr_rom_size matches Some(size) && size != 0)
            ==> resolver.spec_resolve().chr_work_ram_size == 0,
        (resolver.cartridge.chr_rom_size is None || resolver.cartridge.chr_rom_size == Some(0u32))
            && resolver.hard_coded_overrides.chr_save_ram_size is None
            && resolver.cartridge.chr_save_ram_size is None
            && resolver.database.chr_save_ram_size is None
            && resolver.database_extension.chr_save_ram_size is None
            ==> resolver.spec_resolve().chr_work_ram_size == 8192,
        (resolver.hard_coded_overrides.chr_save_ram_size is Some || resolver.cartridge.chr_save_ram_size is Some
            || resolver.database.chr_save_ram_size is Some || resolver.database_extension.chr_save_ram_size is Some)
            ==> resolver.spec_resolve().chr_work_ram_size == 0,
{
    let work = |m: CartridgeMetadata| m.chr_work_ram_size;
    let save = |m: CartridgeMetadata| m.chr_save_ram_size;
    lemma_defaults_decide(resolver, work);
    let d = resolver.default_sources();
    assert(d[0] == resolver.hard_coded_overrides && d[1] == resolver.database_extension && d[2] == resolver.cartridge
        && d[3] == resolver.database);
    lemma_unknown_everywhere(d, work);
    if resolver.hard_coded_overrides.chr_save_ram_size is None && resolver.cartridge.chr_save_ram_size is None
        && resolver.database.chr_save_ram_size is None && resolver.database_extension.chr_save_ram_size is None {
        lemma_unknown_everywhere(d, save);
    } else {
        let i = if resolver.hard_coded_overrides.chr_save_ram_size is Some { 0int } else if resolver.database_extension.chr_save_ram_size is Some { 1int } else if resolver.cartridge.chr_save_ram_size is Some { 2int } else { 3int };
        lemma_first_known_exists(d.map_values(save), i);
    }
}

/// Law of the PRG RAM default: where no source gives a PRG work RAM size, it is 8 KiB if the
/// layout has room for PRG RAM, and none otherwise; the PRG save RAM size defaults to none.
#[verifier::spinoff_prover]
pub proof fn lemma_prg_work_ram_default(resolver: MetadataResolver)
    requires
        resolver.hard_coded_overrides.prg_work_ram_size is None,
        resolver.cartridge.prg_work_ram_size is None,
        resolver.database.prg_work_ram_size is None,
        resolver.database_extension.prg_work_ram_size is None,
    ensures
        resolver.spec_resolve().prg_work_ram_size == if resolver.layout_supports_prg_ram { 8192u32 } else { 0u32 },
{
    lemma_defaults_decide(resolver, |m: CartridgeMetadata| m.prg_work_ram_size);
}

/// Law of the other defaults: where no source gives them, the timing is NTSC, there are no
/// miscellaneous ROMs, no PRG or CHR save RAM, and the standard controllers.
#[verifier::spinoff_prover]
pub proof fn lemma_other_defaults(resolver: MetadataResolver)
    ensures
        resolver.hard_coded_overrides.timing_mode is None && resolver.cartridge.timing_mode is None
            && resolver.database.timing_mode is None && resolver.database_extension.timing_mode is None
            ==> resolver.spec_resolve().region_timing_mode == TimingMode::Ntsc,
        resolver.hard_coded_overrides.prg_save_ram_size is None && resolver.cartridge.prg_save_ram_size is None
            && resolver.database.prg_save_ram_size is None && resolver.database_extension.prg_save_ram_size is None
            ==> resolver.spec_resolve().prg_save_ram_size == 0,
        resolver.hard_coded_overrides.chr_save_ram_size is None && resolver.cartridge.chr_save_ram_size is None
            && resolver.database.chr_save_ram_size is None && resolver.database_extension.chr_save_ram_size is None
            ==> resolver.spec_resolve().chr_save_ram_size == 0,
        resolver.hard_coded_overrides.miscellaneous_rom_count is None && resolver.cartridge.miscellaneous_rom_count is None
            && resolver.database.miscellaneous_rom_count is None
            && resolver.database_extension.miscellaneous_rom_count is None
            ==> resolver.spec_resolve().miscellaneous_rom_count == 0,
        resolver.hard_coded_overrides.default_expansion_device is None
            && resolver.cartridge.default_expansion_device is None
            && resolver.database.default_expansion_device is None
            && resolver.database_extension.default_expansion_device is None
            ==> resolver.spec_resolve().default_expansion_device == ExpansionDevice::StandardNesFamicomControllers,
{
    if resolver.hard_coded_overrides.timing_mode is None && resolver.cartridge.timing_mode is None
        && resolver.database.timing_mode is None && resolver.database_extension.timing_mode is None {
        lemma_defaults_decide(resolver, |m: CartridgeMetadata| m.timing_mode);
    }
    if resolver.hard_coded_overrides.prg_save_ram_size is None && resolver.cartridge.prg_save_ram_size is None
        && resolver.database.prg_save_ram_size is None && resolver.database_extension.prg_save_ram_size is None {
        lemma_defaults_decide(resolver, |m: CartridgeMetadata| m.prg_save_ram_size);
    }
    if resolver.hard_coded_overrides.chr_save_ram_size is None && resolver.cartridge.chr_save_ram_size is None
        && resolver.database.chr_save_ram_size is None && resolver.database_extension.chr_save_ram_size is None {
        lemma_defaults_decide(resolver, |m: CartridgeMetadata| m.chr_save_ram_size);
    }
    if resolver.hard_coded_overrides.miscellaneous_rom_count is None && resolver.cartridge.miscellaneous_rom_count is None
        && resolver.database.miscellaneous_rom_count is None
        && resolver.database_extension.miscellaneous_rom_count is None {
        lemma_defaults_decide(resolver, |m: CartridgeMetadata| m.miscellaneous_rom_count);
    }
    if resolver.hard_coded_overrides.default_expansion_device is None
        && resolver.cartridge.default_expansion_device is None
        && resolver.database.default_expansion_device is None
        && resolver.database_extension.default_expansion_device is None {
        lemma_defaults_decide(resolver, |m: CartridgeMetadata| m.default_expansion_device);
    }
}

} // verus!

use std::path::{Path, PathBuf};

use vstd::prelude::*;
use vstd::slice::{slice_subrange, slice_to_vec};
use vstd::utf8::*;

use crate::cartridge::cartridge_metadata::CartridgeMetadata;
use crate::util::text::{
    decimal, decode_utf8_text, push_decimal, push_text, string_from_chars, take_before_nul, text_before_nul, title_length_error, title_length_is_proper,
    utf8_error_message,
};

verus! {

pub const KIBIBYTE: u32 = 1024;

/// The last component of a path, as `Path::file_name` gives it; none for a path that ends in `..`
/// or is empty.
pub uninterp spec fn path_file_name(path: Seq<char>) -> Option<Seq<char>>;

/// The last component of a path without its extension, as `Path::file_stem` gives it.
pub uninterp spec fn path_file_stem(path: Seq<char>) -> Option<Seq<char>>;

/// A path with a component added, as `PathBuf::push` makes it.
pub uninterp spec fn path_pushed(path: Seq<char>, component: Seq<char>) -> Seq<char>;

/// A path with its extension replaced, as `PathBuf::set_extension` makes it.
pub uninterp spec fn path_with_extension(path: Seq<char>, extension: Seq<char>) -> Seq<char>;

/// Calls `Path::file_name`. Claimed: the result is the named file name of the path.
#[verifier::external_body]
fn file_name_of(path: &str) -> (name: Option<String>)
    ensures
        match name {
            Some(n) => path_file_name(path@) == Some(n@),
            None => path_file_name(path@) is None,
        },
{
    match Path::new(path).file_name() {
        Some(name) => Some(name.to_string_lossy().into_owned()),
        None => None,
    }
}

/// Calls `Path::file_stem`. Claimed: the result is the named file stem of the path.
#[verifier::external_body]
pub(crate) fn file_stem_of(path: &str) -> (stem: Option<String>)
    ensures
        match stem {
            Some(s) => path_file_stem(path@) == Some(s@),
            None => path_file_stem(path@) is None,
        },
{
    match Path::new(path).file_stem() {
        Some(stem) => Some(stem.to_string_lossy().into_owned()),
        None => None,
    }
}

/// Calls `PathBuf::push`. Claimed: the result is the named joined path.
#[verifier::external_body]
pub(crate) fn push_component(path: &str, component: &str) -> (joined: String)
    ensures
        joined@ == path_pushed(path@, component@),
{
    let mut joined = PathBuf::from(path);
    joined.push(component);
    joined.to_string_lossy().into_owned()
}

/// The text holds no path separator (`/`, or `\\` as Windows has it too).
pub open spec fn has_no_separator(text: Seq<char>) -> bool {
    forall|i: int| 0 <= i < text.len() ==> text[i] != '/' && text[i] != '\\'
}

/// Calls `PathBuf::set_extension`, which panics for an extension that holds a path separator.
/// Claimed: the result is the named path with the new extension.
#[verifier::external_body]
pub(crate) fn set_extension(path: &str, extension: &str) -> (changed: String)
    requires
        has_no_separator(extension@),
    ensures
        changed@ == path_with_extension(path@, extension@),
{
    let mut changed = PathBuf::from(path);
    changed.set_extension(extension);
    changed.to_string_lossy().into_owned()
}

/// The error for a ROM that is shorter than the PRG ROM its header claims, with the size in
/// decimal.
fn prg_rom_too_short_error(file_name: &str, kibibytes: u32) -> (message: String)
    ensures
        message@ == "ROM "@ + file_name@ + " was too short (claimed to have "@ + decimal(kibibytes as nat)
            + "KiB PRG ROM)."@,
{
    let mut chars: Vec<char> = Vec::new();
    push_text(&mut chars, "ROM ");
    push_text(&mut chars, file_name);
    push_text(&mut chars, " was too short (claimed to have ");
    push_decimal(&mut chars, kibibytes as u64);
    push_text(&mut chars, "KiB PRG ROM).");
    string_from_chars(&chars)
}

/// The path of a ROM file.
#[derive(Clone, Debug)]
pub struct CartridgePath(String);

impl View for CartridgePath {
    type V = Seq<char>;

    closed spec fn view(&self) -> Seq<char> {
        self.0@
    }
}

impl CartridgePath {
    /// The ROM's name: its file name without the extension.
    pub fn rom_name(&self) -> (name: String)
        requires
            path_file_stem(self@) is Some,
        ensures
            name@ == path_file_stem(self@).unwrap(),
    {
        file_stem_of(self.0.as_str()).unwrap()
    }

    /// The ROM's file name.
    pub fn rom_file_name(&self) -> (name: String)
        requires
            path_file_name(self@) is Some,
        ensures
            name@ == path_file_name(self@).unwrap(),
    {
        file_name_of(self.0.as_str()).unwrap()
    }

    /// The ROM's name, or none for a path without a file name.
    pub fn try_rom_name(&self) -> (name: Option<String>)
        ensures
            match name {
                Some(n) => path_file_stem(self@) == Some(n@),
                None => path_file_stem(self@) is None,
            },
    {
        match file_stem_of(self.0.as_str()) {
            Some(_) => Some(self.rom_name()),
            None => None,
        }
    }

    /// The ROM's file name, or none for a path without one.
    pub fn try_rom_file_name(&self) -> (name: Option<String>)
        ensures
            match name {
                Some(n) => path_file_name(self@) == Some(n@),
                None => path_file_name(self@) is None,
            },
    {
        match file_name_of(self.0.as_str()) {
            Some(_) => Some(self.rom_file_name()),
            None => None,
        }
    }

    /// Where the PRG save RAM of the ROM is kept, or none for a path without a file name.
    pub fn try_prg_save_ram_file_path(&self) -> (save_path: Option<String>)
        ensures
            match save_path {
                Some(p) => path_file_stem(self@) is Some && p@ == path_with_extension(
                    path_pushed("saveram"@, path_file_stem(self@).unwrap()),
                    "prg.saveram"@,
                ),
                None => path_file_stem(self@) is None,
            },
    {
        match file_stem_of(self.0.as_str()) {
            Some(_) => Some(self.to_prg_save_ram_file_path()),
            None => None,
        }
    }

    /// Where the PRG save RAM of the ROM is kept: under `saveram`, the ROM's name with the
    /// extension `prg.saveram`.
    pub fn to_prg_save_ram_file_path(&self) -> (save_path: String)
        requires
            path_file_stem(self@) is Some,
        ensures
            save_path@ == path_with_extension(
                path_pushed("saveram"@, path_file_stem(self@).unwrap()),
                "prg.saveram"@,
            ),
    {
        let stem = file_stem_of(self.0.as_str()).unwrap();
        let save_path = push_component("saveram", stem.as_str());
        proof { reveal_strlit("prg.saveram"); }
        set_extension(save_path.as_str(), "prg.saveram")
    }
}

/// The ROM contents of a cartridge: PRG ROM, CHR ROM and title, with where the ROM came from and
/// whether its save RAM may be written back.
#[derive(Clone, Debug)]
pub struct Cartridge {
    path: CartridgePath,
    title: String,
    allow_saving: bool,

    prg_rom: Vec<u8>,
    chr_rom: Vec<u8>,
}

/// What a `Cartridge` holds, as plain values.
pub struct CartridgeView {
    pub path: Seq<char>,
    pub title: Seq<char>,
    pub allow_saving: bool,
    pub prg_rom: Seq<u8>,
    pub chr_rom: Seq<u8>,
}

impl View for Cartridge {
    type V = CartridgeView;

    closed spec fn view(&self) -> CartridgeView {
        CartridgeView {
            path: self.path@,
            title: self.title@,
            allow_saving: self.allow_saving,
            prg_rom: self.prg_rom@,
            chr_rom: self.chr_rom@,
        }
    }
}

/// Where the PRG ROM ends: after the 16-byte header and the PRG ROM size that the metadata gives.
pub open spec fn prg_rom_end(header: CartridgeMetadata) -> int {
    0x10 + header.prg_rom_size.unwrap()
}

/// Where the CHR ROM ends: after the CHR ROM size that the metadata gives, or at the end of a ROM
/// that is too short for it.
pub open spec fn chr_rom_end(header: CartridgeMetadata, rom: Seq<u8>) -> int {
    let claimed = prg_rom_end(header) + header.chr_rom_size.unwrap();
    if claimed <= rom.len() {
        claimed
    } else {
        rom.len() as int
    }
}

/// What loading a ROM image gives: the image must hold the PRG ROM that the metadata claims; the
/// CHR ROM is cut short by a short image; the rest is the title, which must be empty or 127 or
/// 128 bytes of UTF-8; the title keeps its text before the first NUL.
pub open spec fn is_load_result(path: Seq<char>, header: CartridgeMetadata, rom: Seq<u8>, allow_saving: bool, result: Result<Cartridge, String>) -> bool {
    let title_bytes = rom.subrange(chr_rom_end(header, rom), rom.len() as int);
    &&& result is Ok <==> prg_rom_end(header) <= rom.len() && title_length_is_proper(title_bytes.len() as int)
        && valid_utf8(title_bytes)
    &&& result matches Ok(cartridge) ==> cartridge@ == (CartridgeView {
        path,
        title: text_before_nul(decode_utf8(title_bytes)),
        allow_saving,
        prg_rom: rom.subrange(0x10, prg_rom_end(header)),
        chr_rom: rom.subrange(prg_rom_end(header), chr_rom_end(header, rom)),
    }) && cartridge.sizes_fit()
    &&& result matches Err(message) ==> message@ == (
        if prg_rom_end(header) > rom.len() {
            "ROM "@ + path_file_name(path).unwrap() + " was too short (claimed to have "@
                + decimal((header.prg_rom_size.unwrap() / KIBIBYTE) as nat) + "KiB PRG ROM)."@
        } else if !title_length_is_proper(title_bytes.len() as int) {
            "Title must be empty or 127 or 128 bytes, but was "@ + decimal(title_bytes.len())
                + " bytes."@
        } else {
            utf8_error_message(title_bytes)
        })
}

impl Cartridge {
    /// Loads the PRG ROM, CHR ROM and title of a ROM image whose sizes the metadata gives. A ROM
    /// too short for its PRG ROM is refused; one too short for its CHR ROM keeps what there is.
    /// Fails too for a title that is not UTF-8 or neither empty nor 127 or 128 bytes long.
    pub fn load(path: &str, header: &CartridgeMetadata, raw_header_and_data: &[u8], allow_saving: bool) -> (result: Result<Cartridge, String>)
        requires
            header.prg_rom_size is Some,
            header.chr_rom_size is Some,
            prg_rom_end(*header) + header.chr_rom_size.unwrap() <= u32::MAX,
            raw_header_and_data@.len() <= u32::MAX,
            prg_rom_end(*header) > raw_header_and_data@.len() ==> path_file_name(path@) is Some,
        ensures
            is_load_result(path@, *header, raw_header_and_data@, allow_saving, result),
    {
        let path = CartridgePath(path.to_owned());
        let size = raw_header_and_data.len();

        let prg_rom_size = header.prg_rom_size.unwrap();
        let prg_rom_start: usize = 0x10;
        let prg_rom_end = 0x10 + prg_rom_size as usize;
        if prg_rom_end > size {
            let file_name = path.rom_file_name();
            return Err(prg_rom_too_short_error(file_name.as_str(), prg_rom_size / KIBIBYTE));
        }
        let prg_rom = slice_to_vec(slice_subrange(raw_header_and_data, prg_rom_start, prg_rom_end));

        let chr_rom_start = prg_rom_end;
        let mut chr_rom_end = chr_rom_start + header.chr_rom_size.unwrap() as usize;
        let chr_rom = if chr_rom_end <= size {
            slice_to_vec(slice_subrange(raw_header_and_data, chr_rom_start, chr_rom_end))
        } else {
            chr_rom_end = size;
            slice_to_vec(slice_subrange(raw_header_and_data, chr_rom_start, size))
        };

        let title_start = chr_rom_end;
        let title_bytes = slice_subrange(raw_header_and_data, title_start, size);
        let title_length = size - title_start;
        if !(title_length == 0 || title_length == 127 || title_length == 128) {
            return Err(title_length_error(title_length));
        }

        let title = match decode_utf8_text(title_bytes) {
            Ok(text) => take_before_nul(&text),
            Err(message) => return Err(message),
        };

        Ok(Cartridge { path, title, prg_rom, chr_rom, allow_saving })
    }

    /// Loads a ROM image as `load` does, or gives none where `load` cannot proceed: a ROM too
    /// short for its PRG ROM whose path has no file name to report.
    pub fn try_load(path: &str, header: &CartridgeMetadata, raw_header_and_data: &[u8], allow_saving: bool) -> (result: Option<Result<Cartridge, String>>)
        requires
            header.prg_rom_size is Some,
            header.chr_rom_size is Some,
            prg_rom_end(*header) + header.chr_rom_size.unwrap() <= u32::MAX,
            raw_header_and_data@.len() <= u32::MAX,
        ensures
            result is None <==> prg_rom_end(*header) > raw_header_and_data@.len() && path_file_name(path@) is None,
            result matches Some(loaded) ==> is_load_result(path@, *header, raw_header_and_data@, allow_saving, loaded),
    {
        let prg_rom_end = 0x10 + header.prg_rom_size.unwrap() as usize;
        if prg_rom_end > raw_header_and_data.len() && file_name_of(path).is_none() {
            None
        } else {
            Some(Cartridge::load(path, header, raw_header_and_data, allow_saving))
        }
    }

    /// The ROM's name, or none for a path without a file name.
    pub fn try_name(&self) -> (name: Option<String>)
        ensures
            match name {
                Some(n) => path_file_stem(self@.path) == Some(n@),
                None => path_file_stem(self@.path) is None,
            },
    {
        match file_stem_of(self.path.0.as_str()) {
            Some(_) => Some(self.name()),
            None => None,
        }
    }

    /// The ROM sizes fit in 32 bits.
    pub open spec fn sizes_fit(&self) -> bool {
        self@.prg_rom.len() <= u32::MAX && self@.chr_rom.len() <= u32::MAX
    }

    /// The ROM's name: its file name without the extension.
    pub fn name(&self) -> (name: String)
        requires
            path_file_stem(self@.path) is Some,
        ensures
            name@ == path_file_stem(self@.path).unwrap(),
    {
        self.path.rom_name()
    }

    pub fn path(&self) -> (path: &CartridgePath)
        ensures
            path@ == self@.path,
    {
        &self.path
    }

    pub fn prg_rom(&self) -> (prg_rom: &[u8])
        ensures
            prg_rom@ == self@.prg_rom,
    {
        self.prg_rom.as_slice()
    }

    pub fn chr_rom(&self) -> (chr_rom: &[u8])
        ensures
            chr_rom@ == self@.chr_rom,
    {
        self.chr_rom.as_slice()
    }

    pub fn prg_rom_size(&self) -> (size: u32)
        requires
            self.sizes_fit(),
        ensures
            size == self@.prg_rom.len(),
    {
        self.prg_rom.len() as u32
    }

    pub fn chr_rom_size(&self) -> (size: u32)
        requires
            self.sizes_fit(),
        ensures
            size == self@.chr_rom.len(),
    {
        self.chr_rom.len() as u32
    }

    pub fn allow_saving(&self) -> (allow_saving: bool)
        ensures
            allow_saving == self@.allow_saving,
    {
        self.allow_saving
    }
}

/// The extra ROMs of a PlayChoice-10 cartridge.
#[derive(Clone, Debug)]
pub struct PlayChoice {
    inst_rom: [u8; 8192],
    prom_data: [u8; 16],
    prom_counter_out: [u8; 16],
}

} // verus!

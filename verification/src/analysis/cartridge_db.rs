use std::path::Path;

use vstd::prelude::*;

use crate::cartridge::cartridge::{file_stem_of, path_file_stem};
use crate::util::text::same_text;

verus! {

/// The extension of a path, as `Path::extension` gives it: after the last dot of the file name;
/// none without a file name or a dot in it (after its first character).
pub uninterp spec fn path_extension(path: Seq<char>) -> Option<Seq<char>>;

/// Calls `Path::extension`. Claimed: the result is the named extension; and, as its
/// documentation says, a path with an extension has a file name, so a file stem too.
#[verifier::external_body]
fn extension_of(path: &str) -> (extension: Option<String>)
    ensures
        match extension {
            Some(e) => path_extension(path@) == Some(e@),
            None => path_extension(path@) is None,
        },
        extension is Some ==> path_file_stem(path@) is Some,
{
    match Path::new(path).extension() {
        Some(extension) => Some(extension.to_string_lossy().into_owned()),
        None => None,
    }
}

/// Whether a path found under the ROM directory is analyzed: a `.nes` file whose name, without
/// the extension, does not end with `#ignored`.
pub open spec fn is_analyzed_rom(path: Seq<char>) -> bool {
    &&& path_extension(path) == Some("nes"@)
    &&& !(path_file_stem(path).unwrap().len() >= "#ignored"@.len()
        && path_file_stem(path).unwrap().subrange(
            path_file_stem(path).unwrap().len() - "#ignored"@.len(),
            path_file_stem(path).unwrap().len() as int,
        ) == "#ignored"@)
}

fn ends_with(text: &str, suffix: &str) -> (ends: bool)
    ensures
        ends == (text@.len() >= suffix@.len()
            && text@.subrange(text@.len() - suffix@.len(), text@.len() as int) == suffix@),
{
    let text_len = text.unicode_len();
    let suffix_len = suffix.unicode_len();
    if suffix_len > text_len {
        return false;
    }
    let start = text_len - suffix_len;
    let mut i: usize = 0;
    while i < suffix_len
        invariant
            text_len == text@.len(),
            suffix_len == suffix@.len(),
            start + suffix_len == text_len,
            i <= suffix_len,
            forall|j: int| 0 <= j < i ==> text@[start + j] == suffix@[j],
        decreases suffix_len - i,
    {
        if text.get_char(start + i) != suffix.get_char(i) {
            assert(text@.subrange(start as int, text_len as int)[i as int] != suffix@[i as int]);
            return false;
        }
        i = i + 1;
    }
    assert(text@.subrange(start as int, text_len as int) =~= suffix@);
    true
}

/// Whether the ROM at a path takes part in the analysis: it is a `.nes` file, and its name does
/// not mark it as ignored.
pub fn is_analyzed_rom_path(path: &str) -> (analyzed: bool)
    ensures
        analyzed == is_analyzed_rom(path@),
{
    let extension = extension_of(path);
    match extension {
        Some(extension) => {
            if !same_text(extension.as_str(), "nes") {
                return false;
            }
            let stem = file_stem_of(path).unwrap();
            !ends_with(stem.as_str(), "#ignored")
        },
        None => false,
    }
}

} // verus!

use vstd::prelude::*;

use crate::cartridge::cartridge_header::{CartridgeHeader, CartridgeHeaderBuilder};
use crate::util::number::{parse_hex_u32, parse_u16, parse_u32, parse_u8, parsed_unsigned};
use crate::util::text::same_text;

verus! {

/// A node of a parsed XML document: its position, its parent's, its (local) tag name, empty for
/// a node that is not an element, and its attributes by local name, in order.
pub struct XmlNode {
    pub id: usize,
    pub parent: Option<usize>,
    pub name: String,
    pub attributes: Vec<(String, String)>,
}

/// What an `XmlNode` holds, as plain values.
pub struct XmlNodeView {
    pub id: usize,
    pub parent: Option<usize>,
    pub name: Seq<char>,
    pub attributes: Seq<(Seq<char>, Seq<char>)>,
}

impl View for XmlNode {
    type V = XmlNodeView;

    open spec fn view(&self) -> XmlNodeView {
        XmlNodeView {
            id: self.id,
            parent: self.parent,
            name: self.name@,
            attributes: self.attributes@.map_values(|a: (String, String)| (a.0@, a.1@)),
        }
    }
}

/// The nodes of the XML document that a text holds, in document order, as `roxmltree` parses
/// it; none if the text is not well-formed XML.
pub uninterp spec fn xml_nodes(text: Seq<char>) -> Option<Seq<XmlNodeView>>;

/// Parses XML with `roxmltree::Document::parse` and lists its nodes in document order (as
/// `descendants` walks them), each with its id, its parent's id, its tag name and its
/// attributes. Claimed: the result is the named node list of the text.
#[verifier::external_body]
pub(crate) fn parse_xml_nodes(text: &str) -> (nodes: Option<Vec<XmlNode>>)
    ensures
        match nodes {
            Some(n) => xml_nodes(text@) == Some(n@.map_values(|node: XmlNode| node@)),
            None => xml_nodes(text@) is None,
        },
{
    let doc = match roxmltree::Document::parse(text) {
        Ok(doc) => doc,
        Err(_) => return None,
    };
    let mut nodes = Vec::new();
    for node in doc.descendants() {
        let attributes = node.attributes().map(|a| (a.name().to_string(), a.value().to_string())).collect();
        let parent = node.parent().map(|p| p.id().get_usize());
        nodes.push(XmlNode { id: node.id().get_usize(), parent, name: node.tag_name().name().to_string(), attributes });
    }
    Some(nodes)
}

/// The position of the first node from `start` on that is a child of `parent` named `name`.
pub open spec fn first_child_from(nodes: Seq<XmlNodeView>, parent: usize, name: Seq<char>, start: int) -> Option<int>
    decreases nodes.len() - start,
{
    if start < 0 || start >= nodes.len() {
        None
    } else if nodes[start].parent == Some(parent) && nodes[start].name == name {
        Some(start)
    } else {
        first_child_from(nodes, parent, name, start + 1)
    }
}

/// The value of the first attribute from `start` on that is named `name`.
pub open spec fn first_attribute_from(attributes: Seq<(Seq<char>, Seq<char>)>, name: Seq<char>, start: int) -> Option<Seq<char>>
    decreases attributes.len() - start,
{
    if start < 0 || start >= attributes.len() {
        None
    } else if attributes[start].0 == name {
        Some(attributes[start].1)
    } else {
        first_attribute_from(attributes, name, start + 1)
    }
}

/// Reading an attribute of a node's child: none if there is no such child; for the first such
/// child, its attribute, which may be missing.
pub open spec fn child_attribute(nodes: Seq<XmlNodeView>, parent: usize, child: Seq<char>, attribute: Seq<char>) -> Option<Option<Seq<char>>> {
    match first_child_from(nodes, parent, child, 0) {
        Some(k) => Some(first_attribute_from(nodes[k].attributes, attribute, 0)),
        None => None,
    }
}

/// A required attribute as a number: the child and the attribute must be there, and the text a
/// number in the radix that fits under `max`.
pub open spec fn required_number(nodes: Seq<XmlNodeView>, game: usize, child: Seq<char>, attribute: Seq<char>, radix: nat, max: nat) -> Option<nat> {
    match child_attribute(nodes, game, child, attribute) {
        Some(Some(text)) => parsed_unsigned(text, radix, max),
        _ => None,
    }
}

/// An optional size: absent without the child; if the child is there, its attribute must be
/// there and be a decimal `u32`.
pub open spec fn optional_size_ok(nodes: Seq<XmlNodeView>, game: usize, child: Seq<char>) -> bool {
    match child_attribute(nodes, game, child, "size"@) {
        None => true,
        Some(Some(text)) => parsed_unsigned(text, 10, 0xFFFF_FFFF) is Some,
        Some(None) => false,
    }
}

/// The value of an optional size.
pub open spec fn optional_size(nodes: Seq<XmlNodeView>, game: usize, child: Seq<char>) -> Option<u32> {
    match child_attribute(nodes, game, child, "size"@) {
        Some(Some(text)) => Some(parsed_unsigned(text, 10, 0xFFFF_FFFF).unwrap() as u32),
        _ => None,
    }
}

/// The header that a `game` element describes: its ROM and PRG ROM hashes (hexadecimal), its
/// PRG ROM size, mapper and submapper numbers, and whichever RAM and CHR ROM sizes it gives;
/// none if one of these is missing or malformed.
pub open spec fn spec_game_header(nodes: Seq<XmlNodeView>, game: usize) -> Option<CartridgeHeader> {
    let full_hash = required_number(nodes, game, "rom"@, "crc32"@, 16, 0xFFFF_FFFF);
    let prg_rom_hash = required_number(nodes, game, "prgrom"@, "crc32"@, 16, 0xFFFF_FFFF);
    let prg_rom_size = required_number(nodes, game, "prgrom"@, "size"@, 10, 0xFFFF_FFFF);
    let mapper_number = required_number(nodes, game, "pcb"@, "mapper"@, 10, 0xFFFF);
    let submapper_number = required_number(nodes, game, "pcb"@, "submapper"@, 10, 0xFF);
    if full_hash is Some && prg_rom_hash is Some && prg_rom_size is Some && mapper_number is Some
        && submapper_number is Some && optional_size_ok(nodes, game, "prgram"@)
        && optional_size_ok(nodes, game, "prgnvram"@) && optional_size_ok(nodes, game, "chrrom"@)
        && optional_size_ok(nodes, game, "chrram"@) && optional_size_ok(nodes, game, "chrnvram"@) {
        Some(CartridgeHeader {
            mapper_number: Some(mapper_number.unwrap() as u16),
            submapper_number: Some(submapper_number.unwrap() as u8),
            name_table_mirroring: None,
            has_persistent_memory: None,
            console_type: None,
            full_hash: Some(full_hash.unwrap() as u32),
            prg_rom_hash: Some(prg_rom_hash.unwrap() as u32),
            prg_rom_size: Some(prg_rom_size.unwrap() as u32),
            prg_work_ram_size: optional_size(nodes, game, "prgram"@),
            prg_save_ram_size: optional_size(nodes, game, "prgnvram"@),
            chr_rom_size: optional_size(nodes, game, "chrrom"@),
            chr_work_ram_size: optional_size(nodes, game, "chrram"@),
            chr_save_ram_size: optional_size(nodes, game, "chrnvram"@),
        })
    } else {
        None
    }
}

/// The headers of the `game` elements among the first `count` nodes, in order; none if one of
/// them is malformed.
pub open spec fn spec_game_headers(nodes: Seq<XmlNodeView>, count: int) -> Option<Seq<CartridgeHeader>>
    decreases count,
{
    if count <= 0 {
        Some(Seq::empty())
    } else {
        match spec_game_headers(nodes, count - 1) {
            Some(headers) => if nodes[count - 1].name == "game"@ {
                match spec_game_header(nodes, nodes[count - 1].id) {
                    Some(header) => Some(headers.push(header)),
                    None => None,
                }
            } else {
                Some(headers)
            },
            None => None,
        }
    }
}

/// The headers of all the `game` elements of an XML text; none if the text is not XML or a game
/// is malformed.
pub open spec fn spec_database_headers(text: Seq<char>) -> Option<Seq<CartridgeHeader>> {
    match xml_nodes(text) {
        Some(nodes) => spec_game_headers(nodes, nodes.len() as int),
        None => None,
    }
}

fn find_child(nodes: &Vec<XmlNode>, parent: usize, name: &str) -> (position: Option<usize>)
    ensures
        match position {
            Some(k) => first_child_from(nodes@.map_values(|node: XmlNode| node@), parent, name@, 0) == Some(k as int),
            None => first_child_from(nodes@.map_values(|node: XmlNode| node@), parent, name@, 0) is None,
        },
        position matches Some(k) ==> k < nodes@.len(),
{
    let ghost views = nodes@.map_values(|node: XmlNode| node@);
    let mut k: usize = 0;
    while k < nodes.len()
        invariant
            views == nodes@.map_values(|node: XmlNode| node@),
            k <= nodes@.len(),
            first_child_from(views, parent, name@, 0) == first_child_from(views, parent, name@, k as int),
        decreases nodes@.len() - k,
    {
        assert(views[k as int] == nodes@[k as int]@);
        if nodes[k].parent == Some(parent) && same_text(nodes[k].name.as_str(), name) {
            return Some(k);
        }
        k = k + 1;
    }
    None
}

fn find_attribute(attributes: &Vec<(String, String)>, name: &str) -> (value: Option<String>)
    ensures
        match value {
            Some(v) => first_attribute_from(attributes@.map_values(|a: (String, String)| (a.0@, a.1@)), name@, 0) == Some(v@),
            None => first_attribute_from(attributes@.map_values(|a: (String, String)| (a.0@, a.1@)), name@, 0) is None,
        },
{
    let ghost views = attributes@.map_values(|a: (String, String)| (a.0@, a.1@));
    let mut k: usize = 0;
    while k < attributes.len()
        invariant
            views == attributes@.map_values(|a: (String, String)| (a.0@, a.1@)),
            k <= attributes@.len(),
            first_attribute_from(views, name@, 0) == first_attribute_from(views, name@, k as int),
        decreases attributes@.len() - k,
    {
        assert(views[k as int] == (attributes@[k as int].0@, attributes@[k as int].1@));
        if same_text(attributes[k].0.as_str(), name) {
            return Some(attributes[k].1.clone());
        }
        k = k + 1;
    }
    None
}

fn read_child_attribute(nodes: &Vec<XmlNode>, parent: usize, child: &str, attribute: &str) -> (value: Option<Option<String>>)
    ensures
        match value {
            Some(Some(v)) => child_attribute(nodes@.map_values(|node: XmlNode| node@), parent, child@, attribute@) == Some(Some(v@)),
            Some(None) => child_attribute(nodes@.map_values(|node: XmlNode| node@), parent, child@, attribute@) == Some(None::<Seq<char>>),
            None => child_attribute(nodes@.map_values(|node: XmlNode| node@), parent, child@, attribute@) is None,
        },
{
    match find_child(nodes, parent, child) {
        Some(k) => {
            assert(nodes@.map_values(|node: XmlNode| node@)[k as int] == nodes@[k as int]@);
            Some(find_attribute(&nodes[k].attributes, attribute))
        },
        None => None,
    }
}

fn read_number(nodes: &Vec<XmlNode>, game: usize, child: &str, attribute: &str, hex: bool) -> (value: Option<u32>)
    ensures
        match value {
            Some(v) => required_number(nodes@.map_values(|node: XmlNode| node@), game, child@, attribute@,
                if hex { 16 } else { 10 }, 0xFFFF_FFFF) == Some(v as nat),
            None => required_number(nodes@.map_values(|node: XmlNode| node@), game, child@, attribute@,
                if hex { 16 } else { 10 }, 0xFFFF_FFFF) is None,
        },
{
    match read_child_attribute(nodes, game, child, attribute) {
        Some(Some(text)) => if hex { parse_hex_u32(text.as_str()) } else { parse_u32(text.as_str()) },
        _ => None,
    }
}

fn read_optional_size(nodes: &Vec<XmlNode>, game: usize, child: &str) -> (size: Option<Option<u32>>)
    ensures
        size is Some <==> optional_size_ok(nodes@.map_values(|node: XmlNode| node@), game, child@),
        size matches Some(s) ==> s == optional_size(nodes@.map_values(|node: XmlNode| node@), game, child@),
{
    match read_child_attribute(nodes, game, child, "size") {
        None => Some(None),
        Some(Some(text)) => match parse_u32(text.as_str()) {
            Some(value) => Some(Some(value)),
            None => None,
        },
        Some(None) => None,
    }
}

/// Reads the header that a `game` element describes.
fn game_header(nodes: &Vec<XmlNode>, game: usize) -> (header: Option<CartridgeHeader>)
    ensures
        header == spec_game_header(nodes@.map_values(|node: XmlNode| node@), game),
{
    let ghost views = nodes@.map_values(|node: XmlNode| node@);
    let full_hash = read_number(nodes, game, "rom", "crc32", true);
    let prg_rom_hash = read_number(nodes, game, "prgrom", "crc32", true);
    let prg_rom_size = read_number(nodes, game, "prgrom", "size", false);
    let mapper_number = match read_child_attribute(nodes, game, "pcb", "mapper") {
        Some(Some(text)) => parse_u16(text.as_str()),
        _ => None,
    };
    let submapper_number = match read_child_attribute(nodes, game, "pcb", "submapper") {
        Some(Some(text)) => parse_u8(text.as_str()),
        _ => None,
    };
    let prg_work_ram_size = read_optional_size(nodes, game, "prgram");
    let prg_save_ram_size = read_optional_size(nodes, game, "prgnvram");
    let chr_rom_size = read_optional_size(nodes, game, "chrrom");
    let chr_work_ram_size = read_optional_size(nodes, game, "chrram");
    let chr_save_ram_size = read_optional_size(nodes, game, "chrnvram");
    match (full_hash, prg_rom_hash, prg_rom_size, mapper_number, submapper_number) {
        (Some(full_hash), Some(prg_rom_hash), Some(prg_rom_size), Some(mapper_number), Some(submapper_number)) => {
            match (prg_work_ram_size, prg_save_ram_size, chr_rom_size, chr_work_ram_size, chr_save_ram_size) {
                (Some(prg_work_ram_size), Some(prg_save_ram_size), Some(chr_rom_size), Some(chr_work_ram_size), Some(chr_save_ram_size)) => {
                    let mut builder = CartridgeHeaderBuilder::new();
                    builder
                        .full_hash(full_hash)
                        .prg_rom_hash(prg_rom_hash)
                        .prg_rom_size(prg_rom_size)
                        .mapper_number(mapper_number)
                        .submapper_number(submapper_number);
                    if let Some(size) = prg_work_ram_size {
                        builder.prg_work_ram_size(size);
                    }
                    if let Some(size) = prg_save_ram_size {
                        builder.prg_save_ram_size(size);
                    }
                    if let Some(size) = chr_rom_size {
                        builder.chr_rom_size(size);
                    }
                    if let Some(size) = chr_work_ram_size {
                        builder.chr_work_ram_size(size);
                    }
                    if let Some(size) = chr_save_ram_size {
                        builder.chr_save_ram_size(size);
                    }
                    Some(builder.build())
                },
                _ => None,
            }
        },
        _ => None,
    }
}

/// Reads the headers of the `game` elements, in order; none if one of them is malformed.
pub(crate) fn game_headers(nodes: &Vec<XmlNode>) -> (headers: Option<Vec<CartridgeHeader>>)
    ensures
        match headers {
            Some(h) => spec_game_headers(nodes@.map_values(|node: XmlNode| node@), nodes@.len() as int) == Some(h@),
            None => spec_game_headers(nodes@.map_values(|node: XmlNode| node@), nodes@.len() as int) is None,
        },
{
    let ghost views = nodes@.map_values(|node: XmlNode| node@);
    let mut headers: Vec<CartridgeHeader> = Vec::new();
    let mut k: usize = 0;
    while k < nodes.len()
        invariant
            views == nodes@.map_values(|node: XmlNode| node@),
            k <= nodes@.len(),
            spec_game_headers(views, k as int) == Some(headers@),
        decreases nodes@.len() - k,
    {
        assert(views[k as int] == nodes@[k as int]@);
        if same_text(nodes[k].name.as_str(), "game") {
            match game_header(nodes, nodes[k].id) {
                Some(header) => headers.push(header),
                None => {
                    assert(spec_game_headers(views, k + 1) is None);
                    proof { lemma_game_headers_stay_none(views, k + 1, views.len() as int); }
                    return None;
                },
            }
        }
        k = k + 1;
    }
    Some(headers)
}

/// Once a malformed game is met, the headers of every longer prefix are none too.
proof fn lemma_game_headers_stay_none(nodes: Seq<XmlNodeView>, count: int, later: int)
    requires
        0 < count <= later,
        spec_game_headers(nodes, count) is None,
    ensures
        spec_game_headers(nodes, later) is None,
    decreases later - count,
{
    if count < later {
        lemma_game_headers_stay_none(nodes, count, later - 1);
    }
}

/// Every header read from the games has both hashes, by which the database indexes it.
pub proof fn lemma_game_headers_have_hashes(nodes: Seq<XmlNodeView>, count: int)
    requires
        spec_game_headers(nodes, count) is Some,
    ensures
        forall|i: int| 0 <= i < spec_game_headers(nodes, count).unwrap().len()
            ==> (#[trigger] spec_game_headers(nodes, count).unwrap()[i]).full_hash is Some
                && spec_game_headers(nodes, count).unwrap()[i].prg_rom_hash is Some,
    decreases count,
{
    if count > 0 {
        lemma_game_headers_have_hashes(nodes, count - 1);
    }
}

} // verus!

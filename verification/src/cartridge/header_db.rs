use std::collections::BTreeMap;

use vstd::prelude::*;

use crate::cartridge::Cartridge;
use crate::cartridge::cartridge_header::CartridgeHeader;
use crate::cartridge::header_db_xml::{
    game_headers, lemma_game_headers_have_hashes, parse_xml_nodes, spec_database_headers, XmlNode,
};

verus! {

broadcast use vstd::std_specs::btree::group_btree_axioms;

/// Mapper and submapper numbers for ROMs that aren't in the NES Header DB (mostly test ROMs):
/// full hash, PRG ROM hash, mapper number, submapper number.
pub const MISSING_ROM_SUBMAPPER_NUMBERS: [(u32, u32, u16, u8); 44] = [
    // ppu_read_buffer/test_ppu_read_buffer.nes
    (1731018083u32, 3047829474u32, 3u16, 1u8),
    // cpu_dummy_reads.nes
    (3745301915u32, 3498657192u32, 3u16, 1u8),
    // read_joy3/thorough_test.nes
    (4081207045u32, 68811153u32, 3u16, 1u8),
    // read_joy3/count_errors.nes
    (2480941058u32, 571989249u32, 3u16, 1u8),
    // read_joy3/count_errors_fast.nes
    (401642813u32, 392036799u32, 3u16, 1u8),
    // read_joy3/test_buttons.nes
    (3991554801u32, 3461020892u32, 3u16, 1u8),

    // 2_test/2_test_0.nes
    (2392242790u32, 3901840109u32, 2u16, 1u8),
    // 2_test/2_test_1.nes
    (922356069u32, 3901840109u32, 2u16, 1u8),
    // 2_test/2_test_2.nes
    (624876065u32, 3901840109u32, 2u16, 2u8),
    // 3_test/3_test_0.nes
    (2333203173u32, 3631928862u32, 3u16, 1u8),
    // 3_test/3_test_1.nes
    (2768833268u32, 3631928862u32, 3u16, 1u8),
    // 3_test/3_test_2.nes
    (3609230023u32, 3631928862u32, 3u16, 2u8),
    // 7_test/7_test_0.nes
    (1196595180u32, 1718968027u32, 7u16, 1u8),
    // 7_test/7_test_1.nes
    (4282262767u32, 1718968027u32, 7u16, 1u8),
    // 7_test/7_test_2.nes
    (3975870379u32, 1718968027u32, 7u16, 2u8),

    // bntest/bntest_aorom.nes
    (271080456u32, 3417935230u32, 7u16, 1u8),
    // bntest/bntest_h.nes
    (2219365086u32, 3417935230u32, 34u16, 2u8),
    // bntest/bntest_v.nes
    (180120094u32, 3417935230u32, 34u16, 2u8),

    // holydiverbatman/M2_P128K_V.nes
    (3834536932u32, 3161185153u32, 2u16, 1u8),
    // holydiverbatman/M3_P32K_C32K_H.nes
    (403828385u32, 3300419450u32, 3u16, 1u8),
    // holydiverbatman/M7_P128K.nes
    (656988303u32, 3161185153u32, 7u16, 1u8),
    // holydiverbatman/M34_P128K_H.nes
    (819388560u32, 3161185153u32, 34u16, 1u8),
    // holydiverbatman/M78.3_P128K_C64K.nes
    (2751966167u32, 3161185153u32, 78u16, 3u8),

    // instr_misc.nes
    (1160500958u32, 3165947151u32, 1u16, 0u8),
    // instr_timing.nes
    (2178783783u32, 1558157791u32, 1u16, 0u8),
    // all_instrs.nes
    (2755660131u32, 36867474u32, 1u16, 0u8),

    // mmc3_test/1-clocking.nes
    (840815252u32, 4211641636u32, 4u16, 0u8),
    // mmc3_test/2-details.nes
    (1461067563u32, 4091089803u32, 4u16, 0u8),
    // mmc3_test/3-A12_clocking.nes
    (3522479107u32, 1525174205u32, 4u16, 0u8),
    // mmc3_test/4-scanline_timing.nes
    (3213815090u32, 2170500801u32, 4u16, 0u8),
    // mmc3_test/5-MMC3.nes
    (3729061091u32, 3319686763u32, 4u16, 0u8),
    // mmc3_test/6-MMC6.nes
    (2669308141u32, 2914571485u32, 4u16, 1u8),
    // mmc3_irq_tests/1.Clocking.nes
    (1372524753u32, 3210513450u32, 4u16, 0u8),
    // mmc3_irq_tests/2.Details.nes
    (2314296442u32, 1734525057u32, 4u16, 0u8),
    // mmc3_irq_tests/3.A12_clocking.nes
    (515143863u32, 4029146188u32, 4u16, 0u8),
    // mmc3_irq_tests/4.Scanline_timing.nes
    (440252636u32, 4105053223u32, 4u16, 0u8),
    // mmc3_irq_tests/5.MMC3_rev_A.nes (no submapper number has been officially assigned)
    (495013157u32, 4078096862u32, 4u16, 99u8),
    // mmc3_irq_tests/6.MMC3_rev_B.nes
    (2174952589u32, 1865463926u32, 4u16, 0u8),

    // shxing1.nes
    (1996547387u32, 408545878u32, 7u16, 1u8),
    // shxing2.nes
    (675601020u32, 1193137425u32, 7u16, 1u8),
    // shxdma.nes
    (4274158895u32, 2442883650u32, 7u16, 1u8),

    // Crystalis (no submapper number has been officially assigned)
    (656187357u32, 1661724784u32, 4u16, 99u8),

    // Lagrange Point
    (2905171667u32, 869154800u32, 85u16, 2u8),

    // Dragon Ball Z - Kyoushuu! Saiya Jin (J)
    (3020245841u32, 1651092634u32, 16u16, 5u8),
];

/// Indexes headers by a key; a later header replaces an earlier one with the same key.
pub open spec fn index_headers(headers: Seq<CartridgeHeader>, key: spec_fn(CartridgeHeader) -> u32) -> Map<u32, CartridgeHeader>
    decreases headers.len(),
{
    if headers.len() == 0 {
        Map::empty()
    } else {
        index_headers(headers.drop_last(), key).insert(key(headers.last()), headers.last())
    }
}

/// Indexes (mapper, submapper) pairs by the full hash (`by_full_hash`) or the PRG ROM hash;
/// a later row replaces an earlier one with the same hash.
pub open spec fn index_submapper_rows(rows: Seq<(u32, u32, u16, u8)>, by_full_hash: bool) -> Map<u32, (u16, u8)>
    decreases rows.len(),
{
    if rows.len() == 0 {
        Map::empty()
    } else {
        let row = rows.last();
        index_submapper_rows(rows.drop_last(), by_full_hash).insert(
            if by_full_hash { row.0 } else { row.1 },
            (row.2, row.3),
        )
    }
}

/// A header's full hash, which the database is keyed by.
pub open spec fn full_hash_key(header: CartridgeHeader) -> u32 {
    header.full_hash.unwrap()
}

/// A header's PRG ROM hash, which the database is keyed by too.
pub open spec fn prg_rom_hash_key(header: CartridgeHeader) -> u32 {
    header.prg_rom_hash.unwrap()
}

/// The headers of known ROMs, by full hash and by PRG ROM hash, and the submapper numbers of
/// ROMs that the database lacks.
pub struct HeaderDb {
    data_by_crc32: BTreeMap<u32, CartridgeHeader>,
    prg_rom_by_crc32: BTreeMap<u32, CartridgeHeader>,
    missing_data_submapper_numbers: BTreeMap<u32, (u16, u8)>,
    missing_prg_rom_submapper_numbers: BTreeMap<u32, (u16, u8)>,
}

/// What a `HeaderDb` holds, as maps.
pub struct HeaderDbView {
    pub data_by_crc32: Map<u32, CartridgeHeader>,
    pub prg_rom_by_crc32: Map<u32, CartridgeHeader>,
    pub missing_data_submapper_numbers: Map<u32, (u16, u8)>,
    pub missing_prg_rom_submapper_numbers: Map<u32, (u16, u8)>,
}

impl View for HeaderDb {
    type V = HeaderDbView;

    closed spec fn view(&self) -> HeaderDbView {
        HeaderDbView {
            data_by_crc32: self.data_by_crc32@,
            prg_rom_by_crc32: self.prg_rom_by_crc32@,
            missing_data_submapper_numbers: self.missing_data_submapper_numbers@,
            missing_prg_rom_submapper_numbers: self.missing_prg_rom_submapper_numbers@,
        }
    }
}

impl HeaderDbView {
    /// The submapper number that overrides the database's for a ROM with these hashes, found by
    /// the full hash first, then by the PRG ROM hash, and used only if its mapper number is the
    /// cartridge's.
    pub open spec fn override_submapper_number(self, full_hash: u32, prg_hash: u32, mapper_number: u16) -> Option<u8> {
        if self.missing_data_submapper_numbers.contains_key(full_hash)
            && self.missing_data_submapper_numbers[full_hash].0 == mapper_number {
            Some(self.missing_data_submapper_numbers[full_hash].1)
        } else if self.missing_prg_rom_submapper_numbers.contains_key(prg_hash)
            && self.missing_prg_rom_submapper_numbers[prg_hash].0 == mapper_number {
            Some(self.missing_prg_rom_submapper_numbers[prg_hash].1)
        } else {
            None
        }
    }

    /// The database's header for a ROM: by full hash if it is known, else by PRG ROM hash, with
    /// the overriding submapper number if there is one.
    pub open spec fn spec_header_from_db(self, full_hash: u32, prg_hash: u32, mapper_number: u16) -> Option<CartridgeHeader> {
        let found = if self.data_by_crc32.contains_key(full_hash) {
            Some(self.data_by_crc32[full_hash])
        } else if self.prg_rom_by_crc32.contains_key(prg_hash) {
            Some(self.prg_rom_by_crc32[prg_hash])
        } else {
            None
        };
        match found {
            Some(header) => Some(
                match self.override_submapper_number(full_hash, prg_hash, mapper_number) {
                    Some(submapper_number) => CartridgeHeader { submapper_number: Some(submapper_number), ..header },
                    None => header,
                },
            ),
            None => None,
        }
    }

    /// The missing-ROM entry for these hashes, by full hash first, then by PRG ROM hash.
    pub open spec fn spec_missing_submapper_number(self, data_hash: u32, prg_hash: u32) -> Option<(u16, u8, u32, u32)> {
        if self.missing_data_submapper_numbers.contains_key(data_hash) {
            let (number, sub_number) = self.missing_data_submapper_numbers[data_hash];
            Some((number, sub_number, data_hash, prg_hash))
        } else if self.missing_prg_rom_submapper_numbers.contains_key(prg_hash) {
            let (number, sub_number) = self.missing_prg_rom_submapper_numbers[prg_hash];
            Some((number, sub_number, data_hash, prg_hash))
        } else {
            None
        }
    }
}

fn index_missing_rows(by_full_hash: bool) -> (index: BTreeMap<u32, (u16, u8)>)
    ensures
        index@ == index_submapper_rows(MISSING_ROM_SUBMAPPER_NUMBERS@, by_full_hash),
{
    let mut index: BTreeMap<u32, (u16, u8)> = BTreeMap::new();
    let mut i: usize = 0;
    while i < MISSING_ROM_SUBMAPPER_NUMBERS.len()
        invariant
            i <= MISSING_ROM_SUBMAPPER_NUMBERS@.len(),
            index@ == index_submapper_rows(MISSING_ROM_SUBMAPPER_NUMBERS@.take(i as int), by_full_hash),
        decreases MISSING_ROM_SUBMAPPER_NUMBERS@.len() - i,
    {
        let row = MISSING_ROM_SUBMAPPER_NUMBERS[i];
        let key = if by_full_hash { row.0 } else { row.1 };
        index.insert(key, (row.2, row.3));
        assert(MISSING_ROM_SUBMAPPER_NUMBERS@.take(i + 1).drop_last() =~= MISSING_ROM_SUBMAPPER_NUMBERS@.take(i as int));
        i = i + 1;
    }
    assert(MISSING_ROM_SUBMAPPER_NUMBERS@.take(i as int) =~= MISSING_ROM_SUBMAPPER_NUMBERS@);
    index
}

/// The text is a database: well-formed XML whose `game` elements are all well-formed.
pub open spec fn is_database_text(text: Seq<char>) -> bool {
    spec_database_headers(text) is Some
}

impl HeaderDb {
    /// The database that an XML text describes: the header of each `game` element, indexed by
    /// its full hash and by its PRG ROM hash, together with the submapper numbers of the known
    /// ROMs that it lacks.
    pub fn load(text: &str) -> (header_db: HeaderDb)
        requires
            is_database_text(text@),
        ensures
            header_db@.data_by_crc32 == index_headers(spec_database_headers(text@).unwrap(), |h: CartridgeHeader| full_hash_key(h)),
            header_db@.prg_rom_by_crc32 == index_headers(spec_database_headers(text@).unwrap(), |h: CartridgeHeader| prg_rom_hash_key(h)),
            header_db@.missing_data_submapper_numbers == index_submapper_rows(MISSING_ROM_SUBMAPPER_NUMBERS@, true),
            header_db@.missing_prg_rom_submapper_numbers == index_submapper_rows(MISSING_ROM_SUBMAPPER_NUMBERS@, false),
    {
        let nodes = parse_xml_nodes(text).unwrap();
        let headers = game_headers(&nodes).unwrap();
        proof {
            lemma_game_headers_have_hashes(nodes@.map_values(|node: XmlNode| node@), nodes@.len() as int);
        }
        Self::from_headers(headers.as_slice())
    }

    /// The database that an XML text describes, as `load` reads it, or none for a text that is
    /// not XML or has a malformed `game` element.
    pub fn try_load(text: &str) -> (header_db: Option<HeaderDb>)
        ensures
            header_db is Some <==> is_database_text(text@),
            header_db matches Some(db) ==> {
                &&& db@.data_by_crc32 == index_headers(spec_database_headers(text@).unwrap(), |h: CartridgeHeader| full_hash_key(h))
                &&& db@.prg_rom_by_crc32 == index_headers(spec_database_headers(text@).unwrap(), |h: CartridgeHeader| prg_rom_hash_key(h))
                &&& db@.missing_data_submapper_numbers == index_submapper_rows(MISSING_ROM_SUBMAPPER_NUMBERS@, true)
                &&& db@.missing_prg_rom_submapper_numbers == index_submapper_rows(MISSING_ROM_SUBMAPPER_NUMBERS@, false)
            },
    {
        match parse_xml_nodes(text) {
            Some(nodes) => match game_headers(&nodes) {
                Some(_) => Some(Self::load(text)),
                None => None,
            },
            None => None,
        }
    }

    /// The database of the given headers, each indexed by its full hash and by its PRG ROM hash,
    /// together with the submapper numbers of the known ROMs that it lacks.
    pub fn from_headers(headers: &[CartridgeHeader]) -> (header_db: HeaderDb)
        requires
            forall|i: int| 0 <= i < headers@.len() ==> (#[trigger] headers@[i]).full_hash is Some
                && headers@[i].prg_rom_hash is Some,
        ensures
            header_db@.data_by_crc32 == index_headers(headers@, |h: CartridgeHeader| full_hash_key(h)),
            header_db@.prg_rom_by_crc32 == index_headers(headers@, |h: CartridgeHeader| prg_rom_hash_key(h)),
            header_db@.missing_data_submapper_numbers == index_submapper_rows(MISSING_ROM_SUBMAPPER_NUMBERS@, true),
            header_db@.missing_prg_rom_submapper_numbers == index_submapper_rows(MISSING_ROM_SUBMAPPER_NUMBERS@, false),
    {
        let mut data_by_crc32: BTreeMap<u32, CartridgeHeader> = BTreeMap::new();
        let mut prg_rom_by_crc32: BTreeMap<u32, CartridgeHeader> = BTreeMap::new();
        let mut i: usize = 0;
        while i < headers.len()
            invariant
                i <= headers@.len(),
                forall|j: int| 0 <= j < headers@.len() ==> (#[trigger] headers@[j]).full_hash is Some
                    && headers@[j].prg_rom_hash is Some,
                data_by_crc32@ == index_headers(headers@.take(i as int), |h: CartridgeHeader| full_hash_key(h)),
                prg_rom_by_crc32@ == index_headers(headers@.take(i as int), |h: CartridgeHeader| prg_rom_hash_key(h)),
            decreases headers@.len() - i,
        {
            let header = headers[i];
            data_by_crc32.insert(header.full_hash.unwrap(), header);
            prg_rom_by_crc32.insert(header.prg_rom_hash.unwrap(), header);
            assert(headers@.take(i + 1).drop_last() =~= headers@.take(i as int));
            i = i + 1;
        }
        assert(headers@.take(i as int) =~= headers@);
        HeaderDb {
            data_by_crc32,
            prg_rom_by_crc32,
            missing_data_submapper_numbers: index_missing_rows(true),
            missing_prg_rom_submapper_numbers: index_missing_rows(false),
        }
    }

    /// The database's header for a cartridge, found by full hash, else by PRG ROM hash. A ROM
    /// whose submapper number the database lacks gets it from the missing-ROM table, provided
    /// that the table's mapper number is the cartridge's.
    pub fn header_from_db(
        &self,
        cartridge: &Cartridge,
        full_hash: u32,
        prg_hash: u32,
        mapper_number: u16,
        submapper_number: Option<u8>,
    ) -> (header: Option<CartridgeHeader>)
        ensures
            header == self@.spec_header_from_db(full_hash, prg_hash, cartridge@.mapper_number as u16),
    {
        let cartridge_mapper_number = cartridge.mapper_number() as u16;
        let mut override_submapper_number: Option<u8> = None;
        let data_entry = self.missing_data_submapper_numbers.get(&full_hash);
        let prg_entry = self.missing_prg_rom_submapper_numbers.get(&prg_hash);
        if data_entry.is_some() && data_entry.unwrap().0 == cartridge_mapper_number {
            override_submapper_number = Some(data_entry.unwrap().1);
        } else if prg_entry.is_some() && prg_entry.unwrap().0 == cartridge_mapper_number {
            override_submapper_number = Some(prg_entry.unwrap().1);
        }

        if let Some(header) = self.data_by_crc32.get(&full_hash) {
            let mut header = *header;
            if let Some(override_submapper_number) = override_submapper_number {
                header.set_submapper_number(override_submapper_number);
            }
            return Some(header);
        }

        if let Some(header) = self.prg_rom_by_crc32.get(&prg_hash) {
            let mut header = *header;
            if let Some(override_submapper_number) = override_submapper_number {
                header.set_submapper_number(override_submapper_number);
            }
            Some(header)
        } else {
            None
        }
    }

    /// The missing-ROM entry for a ROM, found by full hash, else by PRG ROM hash, with both hashes.
    pub fn missing_submapper_number(&self, data_hash: u32, prg_hash: u32) -> (entry: Option<(u16, u8, u32, u32)>)
        ensures
            entry == self@.spec_missing_submapper_number(data_hash, prg_hash),
    {
        if let Some(numbers) = self.missing_data_submapper_numbers.get(&data_hash) {
            let (number, sub_number) = *numbers;
            Some((number, sub_number, data_hash, prg_hash))
        } else if let Some(numbers) = self.missing_prg_rom_submapper_numbers.get(&prg_hash) {
            let (number, sub_number) = *numbers;
            Some((number, sub_number, data_hash, prg_hash))
        } else {
            None
        }
    }
}

} // verus!

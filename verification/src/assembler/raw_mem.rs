use vstd::prelude::*;

verus! {

/// Memory being assembled: each byte is set at most once; the bytes never set read as the fill
/// byte.
pub struct RawMem {
    raw: Vec<Option<u8>>,
    fill_byte: u8,
}

impl View for RawMem {
    type V = Seq<Option<u8>>;

    closed spec fn view(&self) -> Seq<Option<u8>> {
        self.raw@
    }
}

/// The bytes of assembled memory, with the unset ones filled.
pub open spec fn resolved(raw: Seq<Option<u8>>, fill_byte: u8) -> Seq<u8> {
    raw.map_values(|value: Option<u8>| match value {
        Some(byte) => byte,
        None => fill_byte,
    })
}

impl RawMem {
    /// The byte that unset bytes read as.
    pub closed spec fn spec_fill_byte(&self) -> u8 {
        self.fill_byte
    }

    /// Memory of `size` unset bytes, filled with zeros.
    pub fn new(size: u32) -> (mem: Self)
        ensures
            mem@ == Seq::new(size as nat, |i: int| None::<u8>),
            mem.spec_fill_byte() == 0,
    {
        let mut raw: Vec<Option<u8>> = Vec::new();
        let mut i: u32 = 0;
        while i < size
            invariant
                i <= size,
                raw@ == Seq::new(i as nat, |j: int| None::<u8>),
            decreases size - i,
        {
            raw.push(None);
            i = i + 1;
            assert(raw@ =~= Seq::new(i as nat, |j: int| None::<u8>));
        }
        Self { raw, fill_byte: 0 }
    }

    pub fn size(&self) -> (size: u32)
        requires
            self@.len() <= u32::MAX,
        ensures
            size == self@.len(),
    {
        self.raw.len() as u32
    }

    /// Sets a byte that has not been set before.
    pub fn set_at(&mut self, index: u32, value: u8)
        requires
            index < old(self)@.len(),
            old(self)@[index as int] is None,
        ensures
            final(self)@ == old(self)@.update(index as int, Some(value)),
            final(self).spec_fill_byte() == old(self).spec_fill_byte(),
    {
        let index = index as usize;
        self.raw.set(index, Some(value));
    }

    /// The bytes, each unset one replaced by the fill byte.
    pub fn resolve(&self) -> (bytes: Vec<u8>)
        ensures
            bytes@ == resolved(self@, self.spec_fill_byte()),
    {
        let mut bytes: Vec<u8> = Vec::new();
        let mut i: usize = 0;
        while i < self.raw.len()
            invariant
                i <= self.raw@.len(),
                bytes@ == resolved(self.raw@.take(i as int), self.fill_byte),
            decreases self.raw@.len() - i,
        {
            let byte = match self.raw[i] {
                Some(byte) => byte,
                None => self.fill_byte,
            };
            bytes.push(byte);
            i = i + 1;
            assert(bytes@ =~= resolved(self.raw@.take(i as int), self.fill_byte));
        }
        assert(self.raw@.take(i as int) =~= self.raw@);
        bytes
    }
}


/// A byte that was set reads back as itself, whatever the fill byte; every other byte keeps
/// what it read as before.
pub proof fn lemma_set_then_resolve(raw: Seq<Option<u8>>, fill_byte: u8, index: int, value: u8)
    requires
        0 <= index < raw.len(),
    ensures
        resolved(raw.update(index, Some(value)), fill_byte)[index] == value,
        forall|i: int| 0 <= i < raw.len() && i != index ==> #[trigger] resolved(raw.update(index, Some(value)), fill_byte)[i]
            == resolved(raw, fill_byte)[i],
{
}

} // verus!

use vstd::prelude::*;

verus! {

/// A field taken from a value: its name, its value and its number of bits.
pub type FieldEntry = (char, u128, u32);

/// The last field with the given name, as a map from names to fields keeps it.
pub open spec fn last_entry(entries: Seq<FieldEntry>, name: char) -> Option<FieldEntry>
    decreases entries.len(),
{
    if entries.len() == 0 {
        None
    } else if entries.last().0 == name {
        Some(entries.last())
    } else {
        last_entry(entries.drop_last(), name)
    }
}

/// An upper field joined with a lower one of the same name: the upper bits go above the lower
/// ones.
pub open spec fn concat_entries(upper: FieldEntry, lower: FieldEntry) -> FieldEntry {
    (upper.0, (upper.1 << lower.2) | lower.1, (upper.2 + lower.2) as u32)
}

/// The upper fields, each joined with the lower field of its name if there is one; none if a
/// joined field would be wider than 128 bits, or the lower field would leave the upper one no
/// bit.
pub open spec fn merged_upper(upper: Seq<FieldEntry>, lower: Seq<FieldEntry>) -> Option<Seq<FieldEntry>>
    decreases upper.len(),
{
    if upper.len() == 0 {
        Some(Seq::empty())
    } else {
        match merged_upper(upper.drop_last(), lower) {
            Some(prefix) => {
                let u = upper.last();
                match last_entry(lower, u.0) {
                    Some(l) => if u.2 + l.2 <= 128 && l.2 < 128 {
                        Some(prefix.push(concat_entries(u, l)))
                    } else {
                        None
                    },
                    None => Some(prefix.push(u)),
                }
            },
            None => None,
        }
    }
}

/// The lower fields whose names no upper field has.
pub open spec fn lower_only(upper: Seq<FieldEntry>, lower: Seq<FieldEntry>) -> Seq<FieldEntry>
    decreases lower.len(),
{
    if lower.len() == 0 {
        Seq::empty()
    } else {
        let rest = lower_only(upper, lower.drop_last());
        if last_entry(upper, lower.last().0) is None {
            rest.push(lower.last())
        } else {
            rest
        }
    }
}

/// Fields of an upper value merged with those of a lower one: the upper fields, joined with
/// their lower namesakes, then the lower fields of new names.
pub open spec fn spec_merge(upper: Seq<FieldEntry>, lower: Seq<FieldEntry>) -> Option<Seq<FieldEntry>> {
    match merged_upper(upper, lower) {
        Some(joined) => Some(joined + lower_only(upper, lower)),
        None => None,
    }
}

/// Finds the last field with the given name.
pub fn find_last_entry(entries: &Vec<FieldEntry>, name: char) -> (entry: Option<FieldEntry>)
    ensures
        entry == last_entry(entries@, name),
{
    let mut k: usize = entries.len();
    assert(entries@.take(k as int) =~= entries@);
    while k > 0
        invariant
            k <= entries@.len(),
            last_entry(entries@, name) == last_entry(entries@.take(k as int), name),
        decreases k,
    {
        assert(entries@.take(k as int).drop_last() =~= entries@.take(k - 1));
        assert(entries@.take(k as int).last() == entries@[k - 1]);
        if entries[k - 1].0 == name {
            return Some(entries[k - 1]);
        }
        k = k - 1;
    }
    None
}

/// Merges the fields of an upper value with those of a lower one; none if a joined field would
/// be wider than 128 bits.
pub fn merge(upper: &Vec<FieldEntry>, lower: &Vec<FieldEntry>) -> (merged: Option<Vec<FieldEntry>>)
    ensures
        match merged {
            Some(m) => spec_merge(upper@, lower@) == Some(m@),
            None => spec_merge(upper@, lower@) is None,
        },
{
    let mut result: Vec<FieldEntry> = Vec::new();
    let mut i: usize = 0;
    while i < upper.len()
        invariant
            i <= upper@.len(),
            merged_upper(upper@.take(i as int), lower@) == Some(result@),
        decreases upper@.len() - i,
    {
        assert(upper@.take(i + 1).drop_last() =~= upper@.take(i as int));
        assert(upper@.take(i + 1).last() == upper@[i as int]);
        let u = upper[i];
        match find_last_entry(lower, u.0) {
            Some(l) => {
                if u.2 as u64 + l.2 as u64 > 128 || l.2 >= 128 {
                    proof { lemma_merged_upper_stays_none(upper@, lower@, i + 1); }
                    return None;
                }
                result.push((u.0, (u.1 << l.2) | l.1, u.2 + l.2));
            },
            None => result.push(u),
        }
        i = i + 1;
    }
    assert(upper@.take(i as int) =~= upper@);
    let mut j: usize = 0;
    let ghost joined = result@;
    while j < lower.len()
        invariant
            j <= lower@.len(),
            result@ == joined + lower_only(upper@, lower@.take(j as int)),
        decreases lower@.len() - j,
    {
        assert(lower@.take(j + 1).drop_last() =~= lower@.take(j as int));
        assert(lower@.take(j + 1).last() == lower@[j as int]);
        let l = lower[j];
        if find_last_entry(upper, l.0).is_none() {
            result.push(l);
            assert(result@ =~= joined + lower_only(upper@, lower@.take(j + 1)));
        }
        j = j + 1;
    }
    assert(lower@.take(j as int) =~= lower@);
    Some(result)
}

/// Once a joined field is too wide, the merge of every longer prefix of the upper fields fails.
proof fn lemma_merged_upper_stays_none(upper: Seq<FieldEntry>, lower: Seq<FieldEntry>, count: int)
    requires
        0 < count <= upper.len(),
        merged_upper(upper.take(count), lower) is None,
    ensures
        merged_upper(upper, lower) is None,
    decreases upper.len() - count,
{
    if count < upper.len() {
        assert(upper.take(count + 1).drop_last() =~= upper.take(count));
        lemma_merged_upper_stays_none(upper, lower, count + 1);
    } else {
        assert(upper.take(count) =~= upper);
    }
}

} // verus!

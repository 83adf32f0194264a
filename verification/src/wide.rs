//! Wide strings: the paths and names of a drag, as runs of 16-bit code units.

use vstd::prelude::*;

verus! {

/// The contents of a list of wide strings.
pub open spec fn strings(list: Seq<Vec<u16>>) -> Seq<Seq<u16>> {
    list.map_values(|string: Vec<u16>| string@)
}

/// Whether a wide string holds no code unit that is zero.
pub open spec fn nul_free(string: Seq<u16>) -> bool {
    forall|i: int| 0 <= i < string.len() ==> string[i] != 0
}

/// The strings of a list one after the other, each ended by a zero.
pub open spec fn terminated(list: Seq<Seq<u16>>) -> Seq<u16>
    decreases list.len(),
{
    if list.len() == 0 {
        Seq::empty()
    } else {
        terminated(list.drop_last()) + list.last().push(0)
    }
}

/// A drop list: the terminated paths, and one more zero to end the list.
pub open spec fn drop_list_units(paths: Seq<Seq<u16>>) -> Seq<u16> {
    terminated(paths).push(0)
}

/// The index of the first zero of `units` from `at` on, or the length if there is none.
pub open spec fn first_nul(units: Seq<u16>, at: int) -> int
    decreases units.len() - at,
{
    if at >= units.len() || units[at] == 0 {
        at
    } else {
        first_nul(units, at + 1)
    }
}

/// The string that a reader finds at `at`: everything up to the first zero.
pub open spec fn string_at(units: Seq<u16>, at: int) -> Seq<u16> {
    units.subrange(at, first_nul(units, at))
}

/// The strings that a reader of a drop list finds from `at` on: one terminated string after the
/// other, until an empty one.
pub open spec fn strings_from(units: Seq<u16>, at: int) -> Seq<Seq<u16>>
    decreases units.len() - at,
{
    let end = first_nul(units, at);
    if at < end < units.len() {
        seq![units.subrange(at, end)] + strings_from(units, end + 1)
    } else {
        Seq::empty()
    }
}

/// Where a string without zeros is followed by a zero, a reader finds that string.
pub proof fn lemma_string_read_back(units: Seq<u16>, at: int, string: Seq<u16>)
    requires
        0 <= at,
        at + string.len() < units.len(),
        units.subrange(at, at + string.len()) == string,
        units[at + string.len()] == 0,
        nul_free(string),
    ensures
        first_nul(units, at) == at + string.len(),
        string_at(units, at) == string,
    decreases string.len(),
{
    if string.len() > 0 {
        assert(string[0] == units[at]);
        assert(units.subrange(at + 1, at + string.len()) =~= string.drop_first());
        assert(nul_free(string.drop_first()));
        lemma_string_read_back(units, at + 1, string.drop_first());
    }
}

/// Ends a wide string with a zero, as the system expects it.
pub fn wide_string(string: Vec<u16>) -> (wide: Vec<u16>)
    ensures
        wide@ == string@.push(0),
{
    let mut wide = string;
    wide.push(0);
    wide
}

/// Builds the drop list of some paths.
pub fn drop_list(paths: &Vec<Vec<u16>>) -> (buffer: Vec<u16>)
    ensures
        buffer@ == drop_list_units(strings(paths@)),
{
    let mut buffer: Vec<u16> = Vec::new();
    let mut i: usize = 0;
    while i < paths.len()
        invariant
            i <= paths.len(),
            buffer@ == terminated(strings(paths@).take(i as int)),
        decreases paths.len() - i,
    {
        let mut wide_path = wide_string(paths[i].clone());
        buffer.append(&mut wide_path);
        assert(strings(paths@).take(i + 1).drop_last() =~= strings(paths@).take(i as int));
        i = i + 1;
    }
    assert(strings(paths@).take(i as int) =~= strings(paths@));
    buffer.push(0);
    buffer
}

} // verus!

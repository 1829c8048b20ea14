//! A palette: a registry of colors by name. Registration overwrites an
//! existing name; lookup is by exact name.

use crate::color::Rgba;
use vstd::prelude::*;

verus! {

/// The mapping a list of palette entries denotes: an earlier entry for a
/// name shadows every later one.
pub open spec fn entries_map(s: Seq<(String, Rgba)>) -> Map<Seq<char>, Rgba>
    decreases s.len(),
{
    if s.len() == 0 {
        Map::empty()
    } else {
        entries_map(s.subrange(1, s.len() as int)).insert(s[0].0@, s[0].1)
    }
}

/// A named-color registry. Its view is the map from color names to colors.
pub struct Palette {
    entries: Vec<(String, Rgba)>,
}

impl View for Palette {
    type V = Map<Seq<char>, Rgba>;

    closed spec fn view(&self) -> Map<Seq<char>, Rgba> {
        entries_map(self.entries@)
    }
}

impl Palette {
    /// Makes an empty palette.
    pub fn new() -> (p: Palette)
        ensures
            p@ == Map::<Seq<char>, Rgba>::empty(),
    {
        Palette { entries: Vec::new() }
    }
}

/// An entry whose name no earlier entry shares decides the map at that name.
proof fn lemma_entries_first_match(s: Seq<(String, Rgba)>, k: Seq<char>, i: int)
    requires
        0 <= i < s.len(),
        s[i].0@ == k,
        forall|m: int| 0 <= m < i ==> (#[trigger] s[m]).0@ != k,
    ensures
        entries_map(s).contains_key(k),
        entries_map(s)[k] == s[i].1,
    decreases s.len(),
{
    let tail = s.subrange(1, s.len() as int);
    if i == 0 {
    } else {
        assert forall|m: int| 0 <= m < i - 1 implies (#[trigger] tail[m]).0@ != k by {
            assert(tail[m] == s[m + 1]);
        }
        assert(tail[i - 1] == s[i]);
        lemma_entries_first_match(tail, k, i - 1);
    }
}

/// A name no entry carries is absent from the map.
proof fn lemma_entries_no_match(s: Seq<(String, Rgba)>, k: Seq<char>)
    requires
        forall|m: int| 0 <= m < s.len() ==> (#[trigger] s[m]).0@ != k,
    ensures
        !entries_map(s).contains_key(k),
    decreases s.len(),
{
    if s.len() > 0 {
        let tail = s.subrange(1, s.len() as int);
        assert forall|m: int| 0 <= m < tail.len() implies (#[trigger] tail[m]).0@ != k by {
            assert(tail[m] == s[m + 1]);
        }
        lemma_entries_no_match(tail, k);
    }
}

/// Registers a color under a name, overwriting any color the name held.
pub fn register_palette_color(palette: &mut Palette, name: &str, color: Rgba)
    ensures
        final(palette)@ == old(palette)@.insert(name@, color),
{
    let ghost before = palette.entries@;
    let owned = String::from_str(name);
    palette.entries.insert(0, (owned, color));
    proof {
        assert(palette.entries@.subrange(1, palette.entries@.len() as int) =~= before);
        assert(palette.entries@[0].0@ == name@);
    }
}

/// Retrieves the color registered under a name, or `None` when the name was
/// never registered (or the palette was cleared since).
pub fn palette_color(palette: &Palette, name: &str) -> (r: Option<Rgba>)
    ensures
        r == if palette@.contains_key(name@) {
            Some(palette@[name@])
        } else {
            None::<Rgba>
        },
{
    let owned = String::from_str(name);
    let mut i: usize = 0;
    while i < palette.entries.len()
        invariant
            0 <= i <= palette.entries@.len(),
            owned@ == name@,
            forall|m: int| 0 <= m < i ==> (#[trigger] palette.entries@[m]).0@ != name@,
        decreases palette.entries@.len() - i,
    {
        if palette.entries[i].0 == owned {
            proof {
                lemma_entries_first_match(palette.entries@, name@, i as int);
            }
            return Some(palette.entries[i].1);
        }
        i = i + 1;
    }
    proof {
        lemma_entries_no_match(palette.entries@, name@);
    }
    None
}

/// Empties the palette.
pub fn clear_palette(palette: &mut Palette)
    ensures
        final(palette)@ == Map::<Seq<char>, Rgba>::empty(),
{
    palette.entries.clear();
}

/// The map a palette holds after registering `entries` in order: each entry
/// inserted over what came before, so a later entry for a name wins.
pub open spec fn loaded(
    m: Map<Seq<char>, Rgba>,
    entries: Seq<(&'static str, Rgba)>,
) -> Map<Seq<char>, Rgba>
    decreases entries.len(),
{
    if entries.len() == 0 {
        m
    } else {
        loaded(m, entries.drop_last()).insert(entries.last().0@, entries.last().1)
    }
}

/// Whether some entry of the table carries the name `k`.
pub open spec fn table_has_name(entries: Seq<(&'static str, Rgba)>, k: Seq<char>) -> bool {
    exists|t: int| 0 <= t < entries.len() && (#[trigger] entries[t]).0@ == k
}

/// Loading a table puts exactly the table's names beside the names already
/// present.
proof fn lemma_loaded_contains(m: Map<Seq<char>, Rgba>, entries: Seq<(&'static str, Rgba)>)
    ensures
        forall|k: Seq<char>| #[trigger]
            loaded(m, entries).contains_key(k) <==> m.contains_key(k) || table_has_name(entries, k),
    decreases entries.len(),
{
    if entries.len() > 0 {
        lemma_loaded_contains(m, entries.drop_last());
        assert forall|k: Seq<char>| #[trigger]
            loaded(m, entries).contains_key(k) <==> m.contains_key(k) || table_has_name(
                entries,
                k,
            ) by {
            assert(loaded(m, entries.drop_last()).contains_key(k) <==> m.contains_key(k)
                || table_has_name(entries.drop_last(), k));
            if table_has_name(entries.drop_last(), k) {
                let t = choose|t: int|
                    0 <= t < entries.drop_last().len() && (#[trigger] entries.drop_last()[t]).0@
                        == k;
                assert((entries[t]).0@ == k);
                assert(table_has_name(entries, k));
            }
            if table_has_name(entries, k) && entries.last().0@ != k {
                let t = choose|t: int| 0 <= t < entries.len() && (#[trigger] entries[t]).0@ == k;
                assert((entries.drop_last()[t]).0@ == k);
                assert(table_has_name(entries.drop_last(), k));
            }
            if entries.last().0@ == k {
                assert((entries[entries.len() - 1]).0@ == k);
                assert(table_has_name(entries, k));
            }
        }
    }
}

/// Registers every named color of the standard W3C/X11 set, in table order:
/// afterwards the palette holds exactly its old names and the table's names,
/// each table name under the table's color.
pub fn add_named_colors_to_palette(palette: &mut Palette)
    ensures
        final(palette)@ == loaded(old(palette)@, crate::named::named_colors()),
        forall|k: Seq<char>| #[trigger]
            final(palette)@.contains_key(k) <==> old(palette)@.contains_key(k) || table_has_name(
                crate::named::named_colors(),
                k,
            ),
{
    let table = crate::named::named_color_table();
    let mut i: usize = 0;
    while i < table.len()
        invariant
            0 <= i <= table@.len(),
            table@ == crate::named::named_colors(),
            palette@ == loaded(old(palette)@, table@.take(i as int)),
        decreases table@.len() - i,
    {
        proof {
            assert(table@.take(i as int + 1).drop_last() =~= table@.take(i as int));
            assert(table@.take(i as int + 1).last() == table@[i as int]);
        }
        register_palette_color(palette, table[i].0, table[i].1);
        i = i + 1;
    }
    proof {
        assert(table@.take(table@.len() as int) =~= table@);
        lemma_loaded_contains(old(palette)@, crate::named::named_colors());
    }
}

} // verus!

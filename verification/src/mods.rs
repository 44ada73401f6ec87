use vstd::prelude::*;
use indexmap::IndexMap;
use crate::managed::{ManagedMod, ModView};

verus! {

/// `indexmap::IndexMap`, a map that keeps its entries in the order in which
/// their keys were first inserted. Nothing of its inside is known here; what a
/// map of mods holds goes by the name [`mod_entries`].
#[verifier::external_type_specification]
#[verifier::external_body]
#[verifier::reject_recursive_types(K)]
#[verifier::reject_recursive_types(V)]
#[verifier::reject_recursive_types(S)]
pub struct ExIndexMap<K, V, S>(indexmap::IndexMap<K, V, S>);

/// The mods of a game by name and value, in deployment order.
pub type Entries = Seq<(Seq<char>, ModView)>;

/// The entries that an ordered map of mods holds, in their order: each mod's
/// name and value.
pub uninterp spec fn mod_entries(mods: IndexMap<String, ManagedMod>) -> Seq<(Seq<char>, ModView)>;

/// Whether some entry has this name.
pub open spec fn has_name(entries: Entries, name: Seq<char>) -> bool {
    exists|i: int| 0 <= i < entries.len() && entries[i].0 == name
}

/// Whether `i` is the first entry with this name.
pub open spec fn first_named(entries: Entries, name: Seq<char>, i: int) -> bool {
    &&& 0 <= i < entries.len()
    &&& entries[i].0 == name
    &&& forall|j: int| 0 <= j < i ==> entries[j].0 != name
}

/// The index of the first entry with this name, where there is one.
pub open spec fn name_index(entries: Entries, name: Seq<char>) -> int {
    choose|i: int| first_named(entries, name, i)
}

/// The entries after `value` was inserted under `name`: an entry of that name
/// keeps its place and takes the new value; a new name goes to the end.
pub open spec fn inserted(
    entries: Entries,
    name: Seq<char>,
    value: ModView,
) -> Entries {
    if has_name(entries, name) {
        entries.update(name_index(entries, name), (name, value))
    } else {
        entries.push((name, value))
    }
}

/// The value that an insert under `name` replaces, where there is one.
pub open spec fn replaced(entries: Entries, name: Seq<char>) -> ModView {
    entries[name_index(entries, name)].1
}

/// No two entries have the same name.
pub open spec fn distinct_names(entries: Entries) -> bool {
    forall|i: int, j: int|
        0 <= i < entries.len() && 0 <= j < entries.len() && i != j ==> entries[i].0 != entries[j].0
}

/// Where some entry has the name, [`name_index`] is the first such entry.
pub proof fn name_index_is_first(entries: Entries, name: Seq<char>)
    requires
        has_name(entries, name),
    ensures
        first_named(entries, name, name_index(entries, name)),
{
    let k: int = choose|k: int| 0 <= k < entries.len() && entries[k].0 == name;
    first_exists(entries, name, k);
}

proof fn first_exists(entries: Entries, name: Seq<char>, k: int)
    requires
        0 <= k < entries.len(),
        entries[k].0 == name,
    ensures
        exists|i: int| first_named(entries, name, i),
    decreases k,
{
    if exists|j: int| 0 <= j < k && entries[j].0 == name {
        let j: int = choose|j: int| 0 <= j < k && entries[j].0 == name;
        first_exists(entries, name, j);
    } else {
        assert(first_named(entries, name, k));
    }
}

/// Inserting keeps the names distinct.
pub proof fn inserted_keeps_distinct(
    entries: Entries,
    name: Seq<char>,
    value: ModView,
)
    requires
        distinct_names(entries),
    ensures
        distinct_names(inserted(entries, name, value)),
{
    if has_name(entries, name) {
        name_index_is_first(entries, name);
    }
}

/// The last insert wins: of two inserts under one name only the second
/// shows, at the place that the first one took.
pub proof fn last_insert_wins(
    entries: Entries,
    name: Seq<char>,
    first: ModView,
    second: ModView,
)
    ensures
        inserted(inserted(entries, name, first), name, second) == inserted(entries, name, second),
{
    let once = inserted(entries, name, first);
    if has_name(entries, name) {
        name_index_is_first(entries, name);
        let at: int = name_index(entries, name);
        assert(first_named(once, name, at));
        name_index_is_first(once, name);
        assert(inserted(once, name, second) =~= inserted(entries, name, second));
    } else {
        let at: int = entries.len() as int;
        assert(once[at].0 == name);
        assert(first_named(once, name, at));
        name_index_is_first(once, name);
        assert(inserted(once, name, second) =~= inserted(entries, name, second));
    }
}

/// `IndexMap::new`: a map without entries.
#[verifier::external_body]
pub(crate) fn mods_new() -> (mods: IndexMap<String, ManagedMod>)
    ensures
        mod_entries(mods) == Entries::empty(),
{
    IndexMap::new()
}

/// `IndexMap::len`: the number of entries.
#[verifier::external_body]
pub(crate) fn mods_len(mods: &IndexMap<String, ManagedMod>) -> (len: usize)
    ensures
        len == mod_entries(*mods).len(),
{
    mods.len()
}

/// `IndexMap::get_index`: the entry at a position of the order, or nothing
/// where the position is past the end.
#[verifier::external_body]
pub(crate) fn mods_get_index(
    mods: &IndexMap<String, ManagedMod>,
    index: usize,
) -> (entry: Option<(&String, &ManagedMod)>)
    ensures
        match entry {
            Some((name, mm)) => {
                &&& index < mod_entries(*mods).len()
                &&& mod_entries(*mods)[index as int] == (name@, mm@)
            },
            None => index >= mod_entries(*mods).len(),
        },
{
    mods.get_index(index)
}

/// `IndexMap::get_index_mut`: as [`mods_get_index`], with the value open to
/// change; what is written to it is the entry's new value, and nothing else
/// in the map changes.
#[verifier::external_body]
pub(crate) fn mods_get_index_mut(
    mods: &mut IndexMap<String, ManagedMod>,
    index: usize,
) -> (entry: Option<(&String, &mut ManagedMod)>)
    ensures
        match entry {
            Some((name, mm)) => {
                &&& index < mod_entries(*old(mods)).len()
                &&& mod_entries(*old(mods))[index as int] == (name@, (*mm)@)
                &&& mod_entries(*final(mods)) == mod_entries(*old(mods)).update(
                    index as int,
                    (name@, (*final(mm))@),
                )
            },
            None => {
                &&& index >= mod_entries(*old(mods)).len()
                &&& mod_entries(*final(mods)) == mod_entries(*old(mods))
            },
        },
{
    mods.get_index_mut(index)
}

/// `IndexMap::insert`: an entry with an equal key keeps its key and its place
/// and takes the new value, and the old value is returned; a new key is put
/// last, and nothing is returned.
#[verifier::external_body]
pub(crate) fn mods_insert(
    mods: &mut IndexMap<String, ManagedMod>,
    name: String,
    mm: ManagedMod,
) -> (previous: Option<ManagedMod>)
    ensures
        mod_entries(*final(mods)) == inserted(mod_entries(*old(mods)), name@, mm@),
        previous.is_some() == has_name(mod_entries(*old(mods)), name@),
        previous.is_some() ==> previous.unwrap()@ == replaced(mod_entries(*old(mods)), name@),
{
    mods.insert(name, mm)
}

} // verus!

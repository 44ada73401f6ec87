use vstd::prelude::*;
use vstd::string::StringExecFns;
use crate::game::Game;
use crate::mods::{mods_get_index, mods_len, Entries};
use crate::paths::{extension, extension_in, file_name, file_name_of};
use crate::strings::{append_strings, strings_view};
use crate::walk::{entries_view, EntryView, WalkEntry};

verus! {

/// The load-order manifest to write: the file's path and its whole text.
#[derive(Debug, Clone, PartialEq, Eq)]
pub struct Manifest {
    pub path: String,
    pub text: String,
}

/// Whether a file of this extension is a plugin. The comparison is exact:
/// `ESP` is none.
pub open spec fn is_plugin_extension(ext: Seq<char>) -> bool {
    ext == seq!['e', 's', 'p'] || ext == seq!['e', 's', 'm'] || ext == seq!['e', 's', 'l']
}

/// The file name under which an entry of a walk is listed in the manifest:
/// that of a regular file with a plugin's extension, nothing for any other.
pub open spec fn plugin_name(entry: EntryView) -> Option<Seq<char>> {
    match file_name_of(entry.path) {
        Some(name) => if entry.is_file() && extension_in(name).is_some() && is_plugin_extension(
            extension_in(name).unwrap(),
        ) {
            Some(name)
        } else {
            None
        },
        None => None,
    }
}

/// The manifest's line for a plugin: `*`, the file name, a line feed.
pub open spec fn plugin_line(name: Seq<char>) -> Seq<char> {
    seq!['*'] + name + seq!['\n']
}

/// What an entry adds to the manifest: its line, or nothing.
pub open spec fn entry_lines(entry: EntryView) -> Seq<char> {
    match plugin_name(entry) {
        Some(name) => plugin_line(name),
        None => Seq::empty(),
    }
}

/// The manifest's text for the entries of a walk: the lines of the plugins
/// among them, in the order of the walk. A name that occurs twice is listed
/// twice.
pub open spec fn manifest_text(entries: Seq<EntryView>) -> Seq<char>
    decreases entries.len(),
{
    if entries.len() == 0 {
        Seq::empty()
    } else {
        manifest_text(entries.drop_last()) + entry_lines(entries.last())
    }
}

/// The source roots that are searched for plugins: those of each enabled mod,
/// mod after mod in deployment order, a mod's roots in their own order.
pub open spec fn plugin_roots_of(mods: Entries) -> Seq<Seq<char>>
    decreases mods.len(),
{
    if mods.len() == 0 {
        Seq::empty()
    } else {
        plugin_roots_of(mods.drop_last()) + (if mods.last().1.enabled {
            mods.last().1.part_paths()
        } else {
            Seq::empty()
        })
    }
}

/// The manifest keeps the order of the walks: the lines of one list of
/// entries followed by another are the lines of the first, then those of the
/// second.
pub proof fn manifest_keeps_order(first: Seq<EntryView>, second: Seq<EntryView>)
    ensures
        manifest_text(first + second) == manifest_text(first) + manifest_text(second),
    decreases second.len(),
{
    if second.len() == 0 {
        assert(first + second =~= first);
        assert(manifest_text(first) + manifest_text(second) =~= manifest_text(first));
    } else {
        assert((first + second).drop_last() =~= first + second.drop_last());
        assert((first + second).last() == second.last());
        manifest_keeps_order(first, second.drop_last());
        assert(manifest_text(first + second) =~= manifest_text(first) + manifest_text(second));
    }
}

/// The roots keep the order of the mods: the roots of one list of mods
/// followed by another are the roots of the first, then those of the second.
pub proof fn plugin_roots_keep_order(
    first: Entries,
    second: Entries,
)
    ensures
        plugin_roots_of(first + second) == plugin_roots_of(first) + plugin_roots_of(second),
    decreases second.len(),
{
    if second.len() == 0 {
        assert(first + second =~= first);
        assert(plugin_roots_of(first) + plugin_roots_of(second) =~= plugin_roots_of(first));
    } else {
        assert((first + second).drop_last() =~= first + second.drop_last());
        assert((first + second).last() == second.last());
        plugin_roots_keep_order(first, second.drop_last());
        assert(plugin_roots_of(first + second) =~= plugin_roots_of(first) + plugin_roots_of(
            second,
        ));
    }
}

/// Decides [`is_plugin_extension`].
pub fn plugin_extension(ext: &String) -> (yes: bool)
    ensures
        yes == is_plugin_extension(ext@),
{
    let esp = String::from_str("esp");
    let esm = String::from_str("esm");
    let esl = String::from_str("esl");
    proof {
        reveal_strlit("esp");
        reveal_strlit("esm");
        reveal_strlit("esl");
        assert(esp@ =~= seq!['e', 's', 'p']);
        assert(esm@ =~= seq!['e', 's', 'm']);
        assert(esl@ =~= seq!['e', 's', 'l']);
    }
    *ext == esp || *ext == esm || *ext == esl
}

/// The text of the manifest for the entries of a walk, see
/// [`manifest_text`].
pub fn manifest_of(entries: &Vec<WalkEntry>) -> (text: String)
    ensures
        text@ == manifest_text(entries_view(entries@)),
{
    let mut text = String::new();
    let mut i: usize = 0;
    assert(entries_view(entries@).take(0) =~= Seq::empty());
    while i < entries.len()
        invariant
            i <= entries.len(),
            text@ == manifest_text(entries_view(entries@).take(i as int)),
        decreases entries.len() - i,
    {
        let ghost upto = entries_view(entries@).take(i + 1);
        assert(upto.drop_last() =~= entries_view(entries@).take(i as int));
        assert(upto.last() == entries@[i as int]@);
        let ghost before = text@;
        if entries[i].is_file() {
            match extension(entries[i].path.as_str()) {
                Some(ext) => {
                    if plugin_extension(&ext) {
                        match file_name(entries[i].path.as_str()) {
                            Some(name) => {
                                proof {
                                    reveal_strlit("*");
                                    reveal_strlit("\n");
                                    assert("*"@ =~= seq!['*']);
                                    assert("\n"@ =~= seq!['\n']);
                                }
                                text.append("*");
                                text.append(name.as_str());
                                text.append("\n");
                                assert(text@ =~= before + plugin_line(name@));
                            },
                            None => {},
                        }
                    }
                },
                None => {},
            }
        }
        assert(text@ =~= before + entry_lines(entries@[i as int]@));
        i = i + 1;
    }
    assert(entries_view(entries@).take(i as int) =~= entries_view(entries@));
    text
}

impl Game {
    /// The directories to walk for plugins, see [`plugin_roots_of`].
    pub fn plugin_roots(&self) -> (roots: Vec<String>)
        ensures
            strings_view(roots@) == plugin_roots_of(self.mods()),
    {
        let mut roots: Vec<String> = Vec::new();
        let n: usize = mods_len(&self.config.mods);
        let mut i: usize = 0;
        assert(self.mods().take(0) =~= Seq::empty());
        assert(strings_view(roots@) =~= Seq::empty());
        while i < n
            invariant
                i <= n,
                n == self.mods().len(),
                strings_view(roots@) == plugin_roots_of(self.mods().take(i as int)),
            decreases n - i,
        {
            let ghost upto = self.mods().take(i + 1);
            assert(upto.drop_last() =~= self.mods().take(i as int));
            assert(upto.last() == self.mods()[i as int]);
            match mods_get_index(&self.config.mods, i) {
                Some((_, mm)) => {
                    if mm.enabled {
                        let paths = mm.part_paths();
                        append_strings(&mut roots, &paths);
                    } else {
                        assert(strings_view(roots@) + Seq::<Seq<char>>::empty() =~= strings_view(
                            roots@,
                        ));
                    }
                },
                None => {},
            }
            i = i + 1;
        }
        assert(self.mods().take(i as int) =~= self.mods());
        roots
    }

    /// The plugin manifest for the game, where it has a plugins file: the
    /// file's path and, as its text, the lines of the plugins among `entries`
    /// (see [`manifest_text`]). `entries` are the walks of
    /// [`Game::plugin_roots`], one after the other. A game without a plugins
    /// file has no manifest.
    pub fn write_plugins(&self, entries: &Vec<WalkEntry>) -> (manifest: Option<Manifest>)
        ensures
            manifest.is_some() == self.config.plugins_file.is_some(),
            manifest.is_some() ==> manifest.unwrap().path@ == self.config.plugins_file.unwrap()@
                && manifest.unwrap().text@ == manifest_text(entries_view(entries@)),
    {
        match &self.config.plugins_file {
            Some(path) => Some(Manifest { path: path.clone(), text: manifest_of(entries) }),
            None => None,
        }
    }
}

} // verus!

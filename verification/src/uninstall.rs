use vstd::prelude::*;
use crate::error::{Error, ErrorView};
use crate::game::Game;
use crate::mods::{mods_get_index, mods_len, Entries};
use crate::paths::{differ, join, joined_path, lies_below, relative_path};
use crate::strings::strings_view;
use crate::walk::{entries_view, EntryView, WalkEntry};

verus! {

/// One path to clear from the install directory. A directory is removed only
/// if it is empty by then; anything else is unlinked. A target that does not
/// exist is no error.
#[derive(Debug, Clone, PartialEq, Eq)]
pub struct Removal {
    pub target: String,
    pub directory: bool,
}

/// The mathematical value of a [`Removal`].
pub struct RemovalView {
    pub target: Seq<char>,
    pub directory: bool,
}

impl View for Removal {
    type V = RemovalView;

    open spec fn view(&self) -> RemovalView {
        RemovalView { target: self.target@, directory: self.directory }
    }
}

/// The values of a list of removals, in order.
pub open spec fn removals_view(removals: Seq<Removal>) -> Seq<RemovalView> {
    Seq::new(removals.len(), |i: int| removals[i]@)
}

/// The extracted directories of all mods that have one, enabled or not, in
/// deployment order.
pub open spec fn uninstall_roots_of(mods: Entries) -> Seq<Seq<char>>
    decreases mods.len(),
{
    if mods.len() == 0 {
        Seq::empty()
    } else {
        let earlier = uninstall_roots_of(mods.drop_last());
        match mods.last().1.extracted {
            Some(dir) => earlier.push(dir),
            None => earlier,
        }
    }
}

/// Whether every entry of a walk lies below the walk's root.
pub open spec fn all_below(root: Seq<char>, entries: Seq<EntryView>) -> bool {
    forall|i: int| 0 <= i < entries.len() ==> lies_below(root, (#[trigger] entries[i]).path)
}

/// Whether the entry at `index` is the first of a walk that does not lie
/// below the walk's root.
pub open spec fn first_stray(root: Seq<char>, entries: Seq<EntryView>, index: int) -> bool {
    &&& 0 <= index < entries.len()
    &&& !lies_below(root, entries[index].path)
    &&& forall|i: int| 0 <= i < index ==> lies_below(root, (#[trigger] entries[i]).path)
}

/// The removal that clears what an entry of a mod's tree has put into the
/// install directory: the path at the same place below `install_dir` as the
/// entry's below `root`.
pub open spec fn removal_for(
    install_dir: Seq<char>,
    root: Seq<char>,
    entry: EntryView,
) -> RemovalView {
    RemovalView {
        target: joined_path(install_dir, relative_path(root, entry.path).unwrap()),
        directory: entry.is_dir(),
    }
}

/// The removals for the walk of one extracted tree: one for each entry, file
/// or directory, in the reverse of the walk's order, so that what a directory
/// holds is cleared before the directory itself.
pub open spec fn removal_ops(
    install_dir: Seq<char>,
    root: Seq<char>,
    entries: Seq<EntryView>,
) -> Seq<RemovalView> {
    Seq::new(
        entries.len(),
        |i: int| removal_for(install_dir, root, entries[entries.len() - 1 - i]),
    )
}

impl Game {
    /// The directories to walk for an uninstall, see [`uninstall_roots_of`].
    pub fn uninstall_roots(&self) -> (roots: Vec<String>)
        ensures
            strings_view(roots@) == uninstall_roots_of(self.mods()),
    {
        let mut roots: Vec<String> = Vec::new();
        let n: usize = mods_len(&self.config.mods);
        let mut i: usize = 0;
        assert(self.mods().take(0) =~= Seq::empty());
        assert(strings_view(roots@) =~= Seq::empty());
        while i < n
            invariant
                i <= n,
                n == self.mods().len(),
                strings_view(roots@) == uninstall_roots_of(self.mods().take(i as int)),
            decreases n - i,
        {
            let ghost upto = self.mods().take(i + 1);
            assert(upto.drop_last() =~= self.mods().take(i as int));
            assert(upto.last() == self.mods()[i as int]);
            match mods_get_index(&self.config.mods, i) {
                Some((_, mm)) => {
                    match &mm.extracted {
                        Some(dir) => {
                            let ghost earlier = strings_view(roots@);
                            roots.push(dir.clone());
                            assert(strings_view(roots@) =~= earlier.push(dir@));
                        },
                        None => {},
                    }
                },
                None => {},
            }
            i = i + 1;
        }
        assert(self.mods().take(i as int) =~= self.mods());
        roots
    }

    /// The paths to clear from the install directory for the walk `entries`
    /// of the extracted tree `root`, see [`removal_ops`]. The first entry
    /// that does not lie below `root` makes the plan fail with
    /// `NotADescendant` and that entry's path.
    pub fn uninstall(
        &self,
        root: &str,
        entries: &Vec<WalkEntry>,
    ) -> (plan: Result<Vec<Removal>, Error>)
        ensures
            match plan {
                Ok(removals) => all_below(root@, entries_view(entries@)) && removals_view(removals@)
                    == removal_ops(self.config.install_dir(), root@, entries_view(entries@)),
                Err(e) => exists|index: int|
                    first_stray(root@, entries_view(entries@), index) && e@
                        == ErrorView::NotADescendant(#[trigger] entries_view(entries@)[index].path),
            },
    {
        let install_dir = self.install_dir();
        let n: usize = entries.len();
        // The suffixes are taken in the walk's order, so that the failure
        // named is that of the first stray entry.
        let mut suffixes: Vec<String> = Vec::new();
        let mut i: usize = 0;
        while i < n
            invariant
                i <= n,
                n == entries.len(),
                suffixes.len() == i,
                forall|k: int|
                    0 <= k < i ==> relative_path(
                        root@,
                        (#[trigger] entries_view(entries@)[k]).path,
                    ) == Some(suffixes@[k]@),
            decreases n - i,
        {
            match differ(root, entries[i].path.as_str()) {
                Ok(rel) => {
                    suffixes.push(rel);
                },
                Err(e) => {
                    assert(first_stray(root@, entries_view(entries@), i as int));
                    return Err(e);
                },
            }
            i = i + 1;
        }
        let mut removals: Vec<Removal> = Vec::new();
        let mut j: usize = n;
        while j > 0
            invariant
                j <= n,
                n == entries.len(),
                suffixes.len() == n,
                install_dir@ == self.config.install_dir(),
                forall|k: int|
                    0 <= k < n ==> relative_path(
                        root@,
                        (#[trigger] entries_view(entries@)[k]).path,
                    ) == Some(suffixes@[k]@),
                removals.len() == n - j,
                forall|k: int|
                    0 <= k < removals.len() ==> (#[trigger] removals@[k])@ == removal_for(
                        install_dir@,
                        root@,
                        entries_view(entries@)[n - 1 - k],
                    ),
            decreases j,
        {
            j = j - 1;
            assert(relative_path(root@, entries_view(entries@)[j as int].path) == Some(
                suffixes@[j as int]@,
            ));
            removals.push(
                Removal {
                    target: join(install_dir.as_str(), suffixes[j].as_str()),
                    directory: entries[j].is_dir(),
                },
            );
        }
        assert(removals_view(removals@) =~= removal_ops(
            install_dir@,
            root@,
            entries_view(entries@),
        ));
        Ok(removals)
    }
}

} // verus!

use vstd::prelude::*;
use crate::error::{Error, ErrorView};
use crate::game::Game;
use crate::managed::DeploymentMethod;
use crate::paths::{differ, join, joined_path, lies_below, relative_path};
use crate::walk::{entries_view, EntryView, WalkEntry};

verus! {

/// The kind of link that stands for a deployed file.
#[derive(Debug, Clone, Copy, PartialEq, Eq, Structural)]
pub enum LinkKind {
    Hard,
    Symbolic,
}

impl DeploymentMethod {
    /// See [`DeploymentMethod::link_kind`].
    pub open spec fn spec_link_kind(self, posix: bool) -> LinkKind {
        if self == DeploymentMethod::Symlink && posix {
            LinkKind::Symbolic
        } else {
            LinkKind::Hard
        }
    }

    /// The kind of link that the method asks for: hard links for `Hardlink`
    /// everywhere; for `Symlink` a symbolic link on a POSIX system and a hard
    /// link elsewhere.
    pub fn link_kind(self, posix: bool) -> (kind: LinkKind)
        ensures
            kind == self.spec_link_kind(posix),
    {
        match self {
            DeploymentMethod::Hardlink => LinkKind::Hard,
            DeploymentMethod::Symlink => if posix {
                LinkKind::Symbolic
            } else {
                LinkKind::Hard
            },
        }
    }
}

/// One file to place: `target` in the install directory is to become a link
/// to `source` in a mod's tree. The target's parent directories are made
/// first, and whatever stands at the target is replaced.
#[derive(Debug, Clone, PartialEq, Eq)]
pub struct LinkOp {
    pub source: String,
    pub target: String,
    pub kind: LinkKind,
}

/// The mathematical value of a [`LinkOp`].
pub struct LinkView {
    pub source: Seq<char>,
    pub target: Seq<char>,
    pub kind: LinkKind,
}

impl View for LinkOp {
    type V = LinkView;

    open spec fn view(&self) -> LinkView {
        LinkView { source: self.source@, target: self.target@, kind: self.kind }
    }
}

/// The values of a list of link operations, in order.
pub open spec fn links_view(ops: Seq<LinkOp>) -> Seq<LinkView> {
    Seq::new(ops.len(), |i: int| ops[i]@)
}

/// The link for an entry of the walk of `folder`: from the entry's place
/// below `folder` to the same place below `install_dir`.
pub open spec fn link_for(
    install_dir: Seq<char>,
    folder: Seq<char>,
    entry: EntryView,
    kind: LinkKind,
) -> LinkView {
    let rel = relative_path(folder, entry.path).unwrap();
    LinkView { source: joined_path(folder, rel), target: joined_path(install_dir, rel), kind }
}

/// The links for the walk of one source root `folder`: one for each file
/// entry, in the walk's order, see [`link_for`]. Directories and whatever
/// else is no regular file get no link. The first file entry that does not
/// lie below `folder` makes the whole plan fail with `NotADescendant` and
/// that entry's path.
pub open spec fn link_ops(
    install_dir: Seq<char>,
    folder: Seq<char>,
    entries: Seq<EntryView>,
    kind: LinkKind,
) -> Result<Seq<LinkView>, ErrorView>
    decreases entries.len(),
{
    if entries.len() == 0 {
        Ok(Seq::empty())
    } else {
        let entry = entries.last();
        match link_ops(install_dir, folder, entries.drop_last(), kind) {
            Err(e) => Err(e),
            Ok(ops) => if !entry.is_file() {
                Ok(ops)
            } else if lies_below(folder, entry.path) {
                Ok(ops.push(link_for(install_dir, folder, entry, kind)))
            } else {
                Err(ErrorView::NotADescendant(entry.path))
            },
        }
    }
}

/// The links of a plan that has not failed (none for one that has).
pub open spec fn planned_links(
    install_dir: Seq<char>,
    folder: Seq<char>,
    entries: Seq<EntryView>,
    kind: LinkKind,
) -> Seq<LinkView> {
    match link_ops(install_dir, folder, entries, kind) {
        Ok(ops) => ops,
        Err(_) => Seq::empty(),
    }
}

/// The result of a plan of links, by its value.
pub open spec fn plan_view(plan: Result<Vec<LinkOp>, Error>) -> Result<Seq<LinkView>, ErrorView> {
    match plan {
        Ok(ops) => Ok(links_view(ops@)),
        Err(e) => Err(e@),
    }
}

/// Whether every file entry of a walk lies below the walk's root.
pub open spec fn files_below(folder: Seq<char>, entries: Seq<EntryView>) -> bool {
    forall|i: int|
        0 <= i < entries.len() && (#[trigger] entries[i]).is_file() ==> lies_below(
            folder,
            entries[i].path,
        )
}

/// Whether `link` is the link for some file entry of the walk.
pub open spec fn links_an_entry(
    install_dir: Seq<char>,
    folder: Seq<char>,
    entries: Seq<EntryView>,
    kind: LinkKind,
    link: LinkView,
) -> bool {
    exists|i: int|
        0 <= i < entries.len() && (#[trigger] entries[i]).is_file() && link == link_for(
            install_dir,
            folder,
            entries[i],
            kind,
        )
}

impl Game {
    /// The links to make for the walk `entries` of the source root `folder`,
    /// see [`link_ops`]: into this game's install directory, of the kind that
    /// its deployment method asks for.
    pub fn link_plan(
        &self,
        folder: &str,
        entries: &Vec<WalkEntry>,
        posix: bool,
    ) -> (plan: Result<Vec<LinkOp>, Error>)
        ensures
            plan_view(plan) == link_ops(
                self.config.install_dir(),
                folder@,
                entries_view(entries@),
                self.config.deployment.spec_link_kind(posix),
            ),
    {
        let install_dir = self.install_dir();
        let kind = self.config.deployment.link_kind(posix);
        let ghost walk = entries_view(entries@);
        let mut ops: Vec<LinkOp> = Vec::new();
        let mut i: usize = 0;
        assert(walk.take(0) =~= Seq::empty());
        assert(links_view(ops@) =~= Seq::empty());
        while i < entries.len()
            invariant
                i <= entries.len(),
                walk == entries_view(entries@),
                install_dir@ == self.config.install_dir(),
                kind == self.config.deployment.spec_link_kind(posix),
                link_ops(install_dir@, folder@, walk.take(i as int), kind) == Ok::<
                    Seq<LinkView>,
                    ErrorView,
                >(links_view(ops@)),
            decreases entries.len() - i,
        {
            assert(walk.take(i + 1).drop_last() =~= walk.take(i as int));
            assert(walk.take(i + 1).last() == entries@[i as int]@);
            if entries[i].is_file() {
                match differ(folder, entries[i].path.as_str()) {
                    Ok(rel) => {
                        let ghost earlier = links_view(ops@);
                        let op = LinkOp {
                            source: join(folder, rel.as_str()),
                            target: join(install_dir.as_str(), rel.as_str()),
                            kind,
                        };
                        ops.push(op);
                        assert(links_view(ops@) =~= earlier.push(op@));
                    },
                    Err(e) => {
                        proof {
                            link_ops_fails_on(install_dir@, folder@, walk, kind, i + 1);
                        }
                        return Err(e);
                    },
                }
            }
            i = i + 1;
        }
        assert(walk.take(i as int) =~= walk);
        Ok(ops)
    }
}

/// A plan that has failed for the first `n` entries of a walk fails in the
/// same way for the whole walk.
pub proof fn link_ops_fails_on(
    install_dir: Seq<char>,
    folder: Seq<char>,
    entries: Seq<EntryView>,
    kind: LinkKind,
    n: int,
)
    requires
        0 <= n <= entries.len(),
        link_ops(install_dir, folder, entries.take(n), kind) is Err,
    ensures
        link_ops(install_dir, folder, entries, kind) == link_ops(
            install_dir,
            folder,
            entries.take(n),
            kind,
        ),
    decreases entries.len() - n,
{
    if n == entries.len() {
        assert(entries.take(n) =~= entries);
    } else {
        assert(entries.take(n + 1).drop_last() =~= entries.take(n));
        link_ops_fails_on(install_dir, folder, entries, kind, n + 1);
    }
}

/// A plan for a walk whose file entries all lie below the source root does
/// not fail.
pub proof fn link_ops_succeeds(
    install_dir: Seq<char>,
    folder: Seq<char>,
    entries: Seq<EntryView>,
    kind: LinkKind,
)
    requires
        files_below(folder, entries),
    ensures
        link_ops(install_dir, folder, entries, kind) is Ok,
    decreases entries.len(),
{
    if entries.len() > 0 {
        let earlier = entries.drop_last();
        assert(files_below(folder, earlier)) by {
            assert forall|i: int|
                0 <= i < earlier.len() && (#[trigger] earlier[i]).is_file() implies lies_below(
                folder,
                earlier[i].path,
            ) by {
                assert(earlier[i] == entries[i]);
            }
        }
        link_ops_succeeds(install_dir, folder, earlier, kind);
        assert(entries.last() == entries[entries.len() - 1]);
    }
}

/// A plan that has not failed holds a link for each file entry of the walk,
/// each of them lying below the source root, and no other link.
pub proof fn link_ops_cover(
    install_dir: Seq<char>,
    folder: Seq<char>,
    entries: Seq<EntryView>,
    kind: LinkKind,
)
    requires
        link_ops(install_dir, folder, entries, kind) is Ok,
    ensures
        files_below(folder, entries),
        forall|i: int|
            0 <= i < entries.len() && (#[trigger] entries[i]).is_file() ==> planned_links(
                install_dir,
                folder,
                entries,
                kind,
            ).contains(link_for(install_dir, folder, entries[i], kind)),
        forall|k: int|
            0 <= k < planned_links(install_dir, folder, entries, kind).len() ==> links_an_entry(
                install_dir,
                folder,
                entries,
                kind,
                #[trigger] planned_links(install_dir, folder, entries, kind)[k],
            ),
    decreases entries.len(),
{
    if entries.len() > 0 {
        let earlier = entries.drop_last();
        let last: int = entries.len() - 1;
        let ops = planned_links(install_dir, folder, entries, kind);
        let before = planned_links(install_dir, folder, earlier, kind);
        link_ops_cover(install_dir, folder, earlier, kind);
        assert forall|i: int| 0 <= i < entries.len() && (#[trigger] entries[i]).is_file() implies {
            &&& lies_below(folder, entries[i].path)
            &&& ops.contains(link_for(install_dir, folder, entries[i], kind))
        } by {
            let link = link_for(install_dir, folder, entries[i], kind);
            if i < last {
                assert(earlier[i] == entries[i]);
                let k: int = choose|k: int| 0 <= k < before.len() && before[k] == link;
                assert(ops[k] == link);
            } else {
                assert(ops[ops.len() - 1] == link);
            }
        }
        assert forall|k: int| 0 <= k < ops.len() implies links_an_entry(
            install_dir,
            folder,
            entries,
            kind,
            #[trigger] ops[k],
        ) by {
            if k < before.len() {
                assert(before[k] == ops[k]);
                let i: int = choose|i: int|
                    0 <= i < earlier.len() && (#[trigger] earlier[i]).is_file() && before[k]
                        == link_for(install_dir, folder, earlier[i], kind);
                assert(entries[i] == earlier[i]);
            } else {
                assert(entries[last].is_file());
            }
        }
    }
}

} // verus!

use vstd::prelude::*;
use crate::links::{
    link_for, link_ops, link_ops_cover, link_ops_succeeds, links_an_entry, planned_links, LinkKind,
    LinkView,
};
use crate::paths::{joined_path, relative_path};
use crate::uninstall::{all_below, removal_ops, RemovalView};
use crate::walk::EntryView;

verus! {

/// The files of an install directory as far as the engine is concerned: for
/// each path at which a file stands, the source that it links to.
pub type Tree = Map<Seq<char>, Seq<char>>;

/// The tree after a list of removals was carried out in order: each target
/// that is no directory is unlinked. Removing a directory changes no file.
pub open spec fn after_removals(tree: Tree, removals: Seq<RemovalView>) -> Tree
    decreases removals.len(),
{
    if removals.len() == 0 {
        tree
    } else {
        let earlier = after_removals(tree, removals.drop_last());
        if removals.last().directory {
            earlier
        } else {
            earlier.remove(removals.last().target)
        }
    }
}

/// The tree after a list of links was made in order: each target becomes a
/// link to its source, in place of whatever stood there.
pub open spec fn after_links(tree: Tree, links: Seq<LinkView>) -> Tree
    decreases links.len(),
{
    if links.len() == 0 {
        tree
    } else {
        after_links(tree, links.drop_last()).insert(links.last().target, links.last().source)
    }
}

/// The tree after a deploy: the removals of the uninstall are carried out,
/// then the links of the install are made.
pub open spec fn deployed(tree: Tree, removals: Seq<RemovalView>, links: Seq<LinkView>) -> Tree {
    after_links(after_removals(tree, removals), links)
}

/// Whether some removal of the list unlinks the path.
pub open spec fn unlinks(removals: Seq<RemovalView>, path: Seq<char>) -> bool {
    exists|i: int|
        0 <= i < removals.len() && !(#[trigger] removals[i]).directory && removals[i].target == path
}

/// The place of the last link of the list that writes to the path, if any
/// does.
pub open spec fn last_writer(links: Seq<LinkView>, path: Seq<char>) -> Option<int>
    decreases links.len(),
{
    if links.len() == 0 {
        None
    } else if links.last().target == path {
        Some(links.len() - 1)
    } else {
        last_writer(links.drop_last(), path)
    }
}

/// What removals leave of a tree: a path stands after them just when it stood
/// before and none of them unlinks it, and it then links to what it linked
/// to before.
pub proof fn removals_effect(tree: Tree, removals: Seq<RemovalView>, path: Seq<char>)
    ensures
        after_removals(tree, removals).contains_key(path) == (tree.contains_key(path) && !unlinks(
            removals,
            path,
        )),
        after_removals(tree, removals).contains_key(path) ==> after_removals(tree, removals)[path]
            == tree[path],
    decreases removals.len(),
{
    if removals.len() > 0 {
        let earlier = removals.drop_last();
        removals_effect(tree, earlier, path);
        if unlinks(earlier, path) {
            let i = choose|i: int|
                0 <= i < earlier.len() && !(#[trigger] earlier[i]).directory && earlier[i].target
                    == path;
            assert(removals[i] == earlier[i]);
        }
        if unlinks(removals, path) && !unlinks(earlier, path) {
            let i = choose|i: int|
                0 <= i < removals.len() && !(#[trigger] removals[i]).directory
                    && removals[i].target == path;
            if i < earlier.len() {
                assert(earlier[i] == removals[i]);
            }
        }
        if !removals.last().directory && removals.last().target == path {
            assert(removals[removals.len() - 1] == removals.last());
        }
    }
}

/// [`last_writer`] names a link to the path after which no link writes to it,
/// or says that none writes to it at all.
pub proof fn last_writer_is_last(links: Seq<LinkView>, path: Seq<char>)
    ensures
        match last_writer(links, path) {
            Some(j) => 0 <= j < links.len() && links[j].target == path && forall|k: int|
                j < k < links.len() ==> (#[trigger] links[k]).target != path,
            None => forall|k: int| 0 <= k < links.len() ==> (#[trigger] links[k]).target != path,
        },
    decreases links.len(),
{
    if links.len() > 0 && links.last().target != path {
        last_writer_is_last(links.drop_last(), path);
        assert forall|k: int| 0 <= k < links.len() - 1 implies links[k]
            == links.drop_last()[k] by {}
    }
}

/// What links make of a tree: at a path that some link writes to stands the
/// source of the last such link; every other path is as before.
pub proof fn links_effect(tree: Tree, links: Seq<LinkView>, path: Seq<char>)
    ensures
        match last_writer(links, path) {
            Some(j) => after_links(tree, links).contains_key(path) && after_links(tree, links)[path]
                == links[j].source,
            None => after_links(tree, links).contains_key(path) == tree.contains_key(path) && (
            tree.contains_key(path) ==> after_links(tree, links)[path] == tree[path]),
        },
    decreases links.len(),
{
    if links.len() > 0 {
        links_effect(tree, links.drop_last(), path);
        if links.last().target != path {
            match last_writer(links, path) {
                Some(j) => {
                    last_writer_is_last(links.drop_last(), path);
                    assert(links.drop_last()[j] == links[j]);
                },
                None => {},
            }
        }
    }
}

/// Uninstall is complete: once the removals for the walk of a mod's extracted
/// tree are carried out, no file of that tree has its counterpart left in the
/// install directory.
pub proof fn uninstall_is_complete(
    tree: Tree,
    install_dir: Seq<char>,
    root: Seq<char>,
    entries: Seq<EntryView>,
    i: int,
)
    requires
        all_below(root, entries),
        0 <= i < entries.len(),
        !entries[i].is_dir(),
    ensures
        !after_removals(tree, removal_ops(install_dir, root, entries)).contains_key(
            joined_path(install_dir, relative_path(root, entries[i].path).unwrap()),
        ),
{
    let removals = removal_ops(install_dir, root, entries);
    let path = joined_path(install_dir, relative_path(root, entries[i].path).unwrap());
    let at: int = entries.len() - 1 - i;
    assert(!removals[at].directory && removals[at].target == path);
    removals_effect(tree, removals, path);
}

/// Uninstall clears what install put there: for a mod that is deployed as a
/// whole, from its extracted tree, no target of its links is left once the
/// removals for that tree are carried out.
pub proof fn uninstall_clears_installed_files(
    tree: Tree,
    install_dir: Seq<char>,
    root: Seq<char>,
    entries: Seq<EntryView>,
    kind: LinkKind,
    k: int,
)
    requires
        all_below(root, entries),
        0 <= k < planned_links(install_dir, root, entries, kind).len(),
    ensures
        !after_removals(tree, removal_ops(install_dir, root, entries)).contains_key(
            planned_links(install_dir, root, entries, kind)[k].target,
        ),
{
    link_ops_succeeds(install_dir, root, entries, kind);
    link_ops_cover(install_dir, root, entries, kind);
    let links = planned_links(install_dir, root, entries, kind);
    assert(links_an_entry(install_dir, root, entries, kind, links[k]));
    let i: int = choose|i: int|
        0 <= i < entries.len() && (#[trigger] entries[i]).is_file() && links[k] == link_for(
            install_dir,
            root,
            entries[i],
            kind,
        );
    uninstall_is_complete(tree, install_dir, root, entries, i);
}

/// Removals touch nothing else: a path that no removal unlinks is after them
/// as it was before.
pub proof fn uninstall_keeps_other_files(tree: Tree, removals: Seq<RemovalView>, path: Seq<char>)
    requires
        !unlinks(removals, path),
    ensures
        after_removals(tree, removals).contains_key(path) == tree.contains_key(path),
        tree.contains_key(path) ==> after_removals(tree, removals)[path] == tree[path],
{
    removals_effect(tree, removals, path);
}

/// The last writer wins: after a list of links was made, the target of a link
/// that no later link of the list writes to links to that link's source.
pub proof fn last_link_wins(tree: Tree, links: Seq<LinkView>, j: int)
    requires
        0 <= j < links.len(),
        forall|k: int| j < k < links.len() ==> (#[trigger] links[k]).target != links[j].target,
    ensures
        after_links(tree, links).contains_key(links[j].target),
        after_links(tree, links)[links[j].target] == links[j].source,
{
    let path = links[j].target;
    last_writer_is_last(links, path);
    links_effect(tree, links, path);
}

/// Where a list of links is followed by another and the second writes to a
/// target, the target links to a source of the second, whatever the first
/// put there.
pub proof fn later_links_override(
    tree: Tree,
    earlier: Seq<LinkView>,
    later: Seq<LinkView>,
    target: Seq<char>,
)
    requires
        exists|j: int| 0 <= j < later.len() && (#[trigger] later[j]).target == target,
    ensures
        after_links(tree, earlier + later).contains_key(target),
        exists|k: int|
            0 <= k < later.len() && (#[trigger] later[k]).target == target && after_links(
                tree,
                earlier + later,
            )[target] == later[k].source,
{
    let links = earlier + later;
    let j: int = choose|j: int| 0 <= j < later.len() && (#[trigger] later[j]).target == target;
    assert(links[earlier.len() + j] == later[j]);
    last_writer_is_last(links, target);
    links_effect(tree, links, target);
    let w: int = last_writer(links, target).unwrap();
    assert(w >= earlier.len() + j);
    assert(links[w] == later[w - earlier.len()]);
}

/// Order precedence: where an earlier mod and a later mod both hold a file at
/// the same place below their source roots, then after the links of the
/// earlier and then those of the later mod were made, the file at that place
/// of the install directory links to a source of the later mod.
pub proof fn later_mod_overrides(
    tree: Tree,
    install_dir: Seq<char>,
    kind: LinkKind,
    root_a: Seq<char>,
    walk_a: Seq<EntryView>,
    root_b: Seq<char>,
    walk_b: Seq<EntryView>,
    i: int,
    j: int,
)
    requires
        link_ops(install_dir, root_a, walk_a, kind) is Ok,
        link_ops(install_dir, root_b, walk_b, kind) is Ok,
        0 <= i < walk_a.len() && walk_a[i].is_file(),
        0 <= j < walk_b.len() && walk_b[j].is_file(),
        relative_path(root_a, walk_a[i].path) == relative_path(root_b, walk_b[j].path),
    ensures
        ({
            let plan_a = planned_links(install_dir, root_a, walk_a, kind);
            let plan_b = planned_links(install_dir, root_b, walk_b, kind);
            let target = joined_path(install_dir, relative_path(root_b, walk_b[j].path).unwrap());
            let after = after_links(tree, plan_a + plan_b);
            &&& after.contains_key(target)
            &&& exists|k: int|
                0 <= k < plan_b.len() && (#[trigger] plan_b[k]).target == target && after[target]
                    == plan_b[k].source
        }),
{
    let plan_a = planned_links(install_dir, root_a, walk_a, kind);
    let plan_b = planned_links(install_dir, root_b, walk_b, kind);
    let target = joined_path(install_dir, relative_path(root_b, walk_b[j].path).unwrap());
    link_ops_cover(install_dir, root_b, walk_b, kind);
    let link = link_for(install_dir, root_b, walk_b[j], kind);
    assert(plan_b.contains(link));
    let at: int = choose|at: int| 0 <= at < plan_b.len() && plan_b[at] == link;
    assert(plan_b[at].target == target);
    later_links_override(tree, plan_a, plan_b, target);
}

/// After a deploy, what stands at a path that the uninstall clears is what
/// the install linked there, and nothing stands there if it linked nothing:
/// no file of a mod's tree outlasts the mod's part in the deploy.
pub proof fn deploy_leaves_only_linked_files(
    tree: Tree,
    removals: Seq<RemovalView>,
    links: Seq<LinkView>,
    path: Seq<char>,
)
    requires
        unlinks(removals, path),
    ensures
        deployed(tree, removals, links).contains_key(path) == last_writer(links, path).is_some(),
        last_writer(links, path) matches Some(j) ==> deployed(tree, removals, links)[path]
            == links[j].source,
{
    removals_effect(tree, removals, path);
    links_effect(after_removals(tree, removals), links, path);
}

/// Deploy is idempotent: a second deploy with the same removals and links
/// leaves the tree as the first one made it.
pub proof fn deploy_is_idempotent(tree: Tree, removals: Seq<RemovalView>, links: Seq<LinkView>)
    ensures
        deployed(deployed(tree, removals, links), removals, links) == deployed(
            tree,
            removals,
            links,
        ),
{
    let once = deployed(tree, removals, links);
    let twice = deployed(once, removals, links);
    assert forall|path: Seq<char>|
        #![trigger twice.dom().contains(path)]
        #![trigger once.dom().contains(path)]
        twice.dom().contains(path) == once.dom().contains(path) && (once.dom().contains(path)
            ==> twice[path] == once[path]) by {
        removals_effect(tree, removals, path);
        links_effect(after_removals(tree, removals), links, path);
        removals_effect(once, removals, path);
        links_effect(after_removals(once, removals), links, path);
    }
    assert(twice =~= once);
}

} // verus!

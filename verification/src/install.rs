use vstd::prelude::*;
use vstd::string::StringExecFns;
use crate::game::Game;
use crate::managed::{ManagedMod, ModView};
use crate::mods::{mods_get_index_mut, Entries};
use crate::paths::{file_name, file_name_of, lies_below};
use crate::strings::{copy_strings, strings_view};
use crate::walk::{entries_view, EntryView, WalkEntry};

verus! {

/// What the caller reports to the installer about one mod.
#[derive(Debug, Clone, PartialEq, Eq)]
pub enum InstallEvent {
    /// Nothing yet: the mod's turn has come.
    Begin,
    /// The mod's extracted tree was searched; these are its entries.
    Searched(Vec<WalkEntry>),
    /// The selector was asked; these are the subdirectories it chose.
    Selected(Vec<String>),
}

/// What the installer asks of the caller next for one mod.
#[derive(Debug, Clone, PartialEq, Eq)]
pub enum InstallAction {
    /// The mod takes no part: go on with the next one.
    Skip,
    /// Walk this directory, the mod's extracted tree, and report the entries
    /// that can be read.
    Search(String),
    /// Ask the selector which subdirectories of this directory to install.
    Select(String),
    /// Link the files below these source roots, in this order, as
    /// [`Game::link_plan`] says for the walk of each.
    Deploy(Vec<String>),
}

/// The mathematical value of an [`InstallEvent`].
pub enum EventView {
    Begin,
    Searched(Seq<EntryView>),
    Selected(Seq<Seq<char>>),
}

/// The mathematical value of an [`InstallAction`].
pub enum ActionView {
    Skip,
    Search(Seq<char>),
    Select(Seq<char>),
    Deploy(Seq<Seq<char>>),
}

impl View for InstallEvent {
    type V = EventView;

    open spec fn view(&self) -> EventView {
        match *self {
            InstallEvent::Begin => EventView::Begin,
            InstallEvent::Searched(entries) => EventView::Searched(entries_view(entries@)),
            InstallEvent::Selected(parts) => EventView::Selected(strings_view(parts@)),
        }
    }
}

impl View for InstallAction {
    type V = ActionView;

    open spec fn view(&self) -> ActionView {
        match *self {
            InstallAction::Skip => ActionView::Skip,
            InstallAction::Search(dir) => ActionView::Search(dir@),
            InstallAction::Select(dir) => ActionView::Select(dir@),
            InstallAction::Deploy(roots) => ActionView::Deploy(strings_view(roots@)),
        }
    }
}

/// Whether the entry is the file that marks a tree as one with an installer
/// script of its own.
pub open spec fn is_module_config(entry: EntryView) -> bool {
    entry.is_file() && file_name_of(entry.path) == Some("ModuleConfig.xml"@)
}

/// Whether a walk met such a file.
pub open spec fn has_module_config(entries: Seq<EntryView>) -> bool {
    exists|i: int| 0 <= i < entries.len() && is_module_config(entries[i])
}

/// The installer's decision for one mod: the mod after the event, and what
/// is to be done next.
///
/// A mod that is disabled or not extracted is skipped. Recorded parts are
/// used as they are, whatever the event. Without parts the extracted tree is
/// searched first; where it holds a `ModuleConfig.xml` the selector is asked,
/// and its choice becomes the mod's parts; else the extracted directory
/// itself is the one source root.
pub open spec fn install_decision(m: ModView, event: EventView) -> (ModView, ActionView) {
    if !m.installable() {
        (m, ActionView::Skip)
    } else if m.parts.len() > 0 {
        (m, ActionView::Deploy(m.parts))
    } else {
        match event {
            EventView::Begin => (m, ActionView::Search(m.extracted.unwrap())),
            EventView::Searched(entries) => if has_module_config(entries) {
                (m, ActionView::Select(m.extracted.unwrap()))
            } else {
                (m, ActionView::Deploy(seq![m.extracted.unwrap()]))
            },
            EventView::Selected(parts) => (ModView { parts, ..m }, ActionView::Deploy(parts)),
        }
    }
}

/// Recorded parts override discovery: a mod with parts is never searched and
/// the selector is never asked for it, whatever is reported.
pub proof fn parts_override_discovery(m: ModView, event: EventView)
    requires
        m.parts.len() > 0,
    ensures
        install_decision(m, event).0 == m,
        !(install_decision(m, event).1 is Search),
        !(install_decision(m, event).1 is Select),
        m.installable() ==> install_decision(m, event).1 == ActionView::Deploy(m.parts),
{
}

/// A choice of the selector is asked for once: after a choice that is not
/// empty was reported, every later event gives the same source roots, and
/// none asks the selector again.
pub proof fn selection_is_kept(m: ModView, chosen: Seq<Seq<char>>, later: EventView)
    requires
        m.installable(),
        m.parts.len() == 0,
        chosen.len() > 0,
    ensures
        install_decision(m, EventView::Selected(chosen)).1 == ActionView::Deploy(chosen),
        install_decision(install_decision(m, EventView::Selected(chosen)).0, later)
            == (install_decision(m, EventView::Selected(chosen)).0, ActionView::Deploy(chosen)),
{
}

/// The parts stay below the extracted directory: a step of the installer
/// keeps [`ModView::parts_below_extracted`], as long as what the selector chose
/// lies below the mod's extracted directory.
pub proof fn install_keeps_parts_below(m: ModView, event: EventView)
    requires
        m.parts_below_extracted(),
        event matches EventView::Selected(chosen) ==> m.extracted.is_some() && forall|i: int|
            0 <= i < chosen.len() ==> lies_below(m.extracted.unwrap(), #[trigger] chosen[i]),
    ensures
        install_decision(m, event).0.parts_below_extracted(),
{
}

/// Decides [`has_module_config`] for the entries of a walk.
pub fn found_module_config(entries: &Vec<WalkEntry>) -> (found: bool)
    ensures
        found == has_module_config(entries_view(entries@)),
{
    let wanted = String::from_str("ModuleConfig.xml");
    let mut i: usize = 0;
    while i < entries.len()
        invariant
            i <= entries.len(),
            wanted@ == "ModuleConfig.xml"@,
            forall|k: int| 0 <= k < i ==> !is_module_config(#[trigger] entries_view(entries@)[k]),
        decreases entries.len() - i,
    {
        if entries[i].is_file() {
            match file_name(entries[i].path.as_str()) {
                Some(name) => {
                    if name == wanted {
                        assert(is_module_config(entries_view(entries@)[i as int]));
                        return true;
                    }
                },
                None => {},
            }
        }
        i = i + 1;
    }
    false
}

impl ManagedMod {
    /// One step of the installer for this mod, see [`install_decision`].
    pub fn install(&mut self, event: InstallEvent) -> (action: InstallAction)
        ensures
            (final(self)@, action@) == install_decision(old(self)@, event@),
    {
        if !self.enabled {
            return InstallAction::Skip;
        }
        let dir = match &self.extracted {
            Some(dir) => dir.clone(),
            None => {
                return InstallAction::Skip;
            },
        };
        if self.parts.len() > 0 {
            return InstallAction::Deploy(copy_strings(&self.parts));
        }
        match event {
            InstallEvent::Begin => InstallAction::Search(dir),
            InstallEvent::Searched(entries) => {
                if found_module_config(&entries) {
                    InstallAction::Select(dir)
                } else {
                    let mut roots: Vec<String> = Vec::new();
                    roots.push(dir);
                    assert(strings_view(roots@) =~= seq![dir@]);
                    InstallAction::Deploy(roots)
                }
            },
            InstallEvent::Selected(parts) => {
                let roots = copy_strings(&parts);
                self.parts = parts;
                InstallAction::Deploy(roots)
            },
        }
    }
}

impl Game {
    /// The mods after one step of the installer for the mod at `index`, and
    /// what is to be done next; see [`install_decision`]. Past the last mod
    /// there is nothing to do.
    pub open spec fn install_step(mods: Entries, index: int, event: EventView) -> (
        Entries,
        ActionView,
    ) {
        if 0 <= index < mods.len() {
            let (m, action) = install_decision(mods[index].1, event);
            (mods.update(index, (mods[index].0, m)), action)
        } else {
            (mods, ActionView::Skip)
        }
    }

    /// One step of the installer for the mod at `index` of the deployment
    /// order: takes what the caller reports, records a choice of the selector
    /// in the mod, and says what is to be done next. No other mod and nothing
    /// else of the game changes.
    pub fn install(&mut self, index: usize, event: InstallEvent) -> (action: InstallAction)
        ensures
            (final(self).mods(), action@) == Game::install_step(
                old(self).mods(),
                index as int,
                event@,
            ),
            final(self).same_but_mods(old(self)),
            old(self).wf() ==> final(self).wf(),
    {
        match mods_get_index_mut(&mut self.config.mods, index) {
            Some((_, mm)) => {
                let action = mm.install(event);
                action
            },
            None => InstallAction::Skip,
        }
    }
}

} // verus!

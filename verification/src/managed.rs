use vstd::prelude::*;
use crate::paths::lies_below;
use crate::strings::{copy_strings, option_view, strings_view};

verus! {

/// How files are placed into the install directory.
#[derive(Debug, Clone, Copy, PartialEq, Eq, Structural)]
pub enum DeploymentMethod {
    Hardlink,
    Symlink,
}

impl Default for DeploymentMethod {
    fn default() -> (method: Self)
        ensures
            method == DeploymentMethod::Hardlink,
    {
        DeploymentMethod::Hardlink
    }
}

/// One mod of a game: where its archive lies, where it was extracted to, which
/// parts of the extracted tree are deployed, and whether it takes part at all.
#[derive(Debug, Clone, PartialEq, Eq)]
pub struct ManagedMod {
    pub enabled: bool,
    pub extracted: Option<String>,
    pub archive: String,
    pub parts: Vec<String>,
}

/// The mathematical value of a [`ManagedMod`].
pub struct ModView {
    pub enabled: bool,
    pub extracted: Option<Seq<char>>,
    pub archive: Seq<char>,
    pub parts: Seq<Seq<char>>,
}

impl ModView {
    /// The source roots of a mod: its parts where it has any, else its
    /// extracted directory where it has one, else nothing.
    pub open spec fn part_paths(self) -> Seq<Seq<char>> {
        if self.parts.len() == 0 {
            match self.extracted {
                Some(dir) => seq![dir],
                None => Seq::empty(),
            }
        } else {
            self.parts
        }
    }

    /// Whether every part of the mod lies below its extracted directory.
    pub open spec fn parts_below_extracted(self) -> bool {
        self.parts.len() > 0 ==> self.extracted.is_some() && forall|i: int|
            0 <= i < self.parts.len() ==> lies_below(
                self.extracted.unwrap(),
                #[trigger] self.parts[i],
            )
    }

    /// Whether the mod takes part in an install: it is enabled and extracted.
    pub open spec fn installable(self) -> bool {
        self.enabled && self.extracted.is_some()
    }
}

impl View for ManagedMod {
    type V = ModView;

    open spec fn view(&self) -> ModView {
        ModView {
            enabled: self.enabled,
            extracted: option_view(self.extracted),
            archive: self.archive@,
            parts: strings_view(self.parts@),
        }
    }
}

impl Default for ManagedMod {
    fn default() -> (mm: Self)
        ensures
            mm@ == (ModView {
                enabled: false,
                extracted: None,
                archive: Seq::empty(),
                parts: Seq::empty(),
            }),
    {
        let mm = ManagedMod {
            enabled: false,
            extracted: None,
            archive: String::new(),
            parts: Vec::new(),
        };
        assert(strings_view(mm.parts@) =~= Seq::empty());
        mm
    }
}

impl ManagedMod {
    /// A mod as it is when its archive has just been added: disabled, not
    /// extracted, with no parts chosen.
    pub fn new(archive: String) -> (mm: Self)
        ensures
            mm@ == (ModView {
                enabled: false,
                extracted: None,
                archive: archive@,
                parts: Seq::empty(),
            }),
    {
        let mm = ManagedMod { enabled: false, extracted: None, archive, parts: Vec::new() };
        assert(strings_view(mm.parts@) =~= Seq::empty());
        mm
    }

    /// The source roots of the mod, see [`ModView::part_paths`].
    pub fn part_paths(&self) -> (paths: Vec<String>)
        ensures
            strings_view(paths@) == self@.part_paths(),
    {
        if self.parts.len() == 0 {
            match &self.extracted {
                Some(dir) => {
                    let mut paths: Vec<String> = Vec::new();
                    paths.push(dir.clone());
                    assert(strings_view(paths@) =~= seq![dir@]);
                    paths
                },
                None => {
                    let paths: Vec<String> = Vec::new();
                    assert(strings_view(paths@) =~= Seq::empty());
                    paths
                },
            }
        } else {
            copy_strings(&self.parts)
        }
    }
}

} // verus!

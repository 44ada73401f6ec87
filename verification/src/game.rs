use vstd::prelude::*;
use indexmap::IndexMap;
use crate::error::{Error, ErrorView};
use crate::layout::{game_config_file, game_config_file_of};
use crate::managed::{DeploymentMethod, ManagedMod};
use crate::mods::{
    distinct_names, mod_entries, mods_get_index, mods_get_index_mut, mods_len, mods_new, Entries,
};
use crate::paths::{join, joined_path};
use crate::text::{contains, lowercase_of, occurs_in, to_lowercase};

verus! {

/// What is kept of one game: where it is installed and which mods it has, in
/// the order in which they are deployed.
#[derive(Debug)]
pub struct Config {
    pub game_folder: String,
    pub data_folder: Option<String>,
    pub plugins_file: Option<String>,
    pub deployment: DeploymentMethod,
    pub mods: IndexMap<String, ManagedMod>,
}

/// A game under management: its name and its configuration.
#[derive(Debug)]
pub struct Game {
    pub name: String,
    pub config: Config,
}

impl Config {
    /// The configuration of a game that was just put under management: the
    /// given paths, the default deployment method, no mods.
    pub fn new(
        game_folder: String,
        data_folder: Option<String>,
        plugins_file: Option<String>,
    ) -> (config: Self)
        ensures
            config.game_folder == game_folder,
            config.data_folder == data_folder,
            config.plugins_file == plugins_file,
            config.deployment == DeploymentMethod::Hardlink,
            mod_entries(config.mods) == Entries::empty(),
            config.wf(),
    {
        Config {
            game_folder,
            data_folder,
            plugins_file,
            deployment: DeploymentMethod::default(),
            mods: mods_new(),
        }
    }

    /// No mod name occurs twice.
    pub open spec fn wf(&self) -> bool {
        distinct_names(mod_entries(self.mods))
    }

    /// The directory that mods are deployed into.
    pub open spec fn install_dir(&self) -> Seq<char> {
        match self.data_folder {
            Some(data) => joined_path(self.game_folder@, data@),
            None => self.game_folder@,
        }
    }
}

impl Game {
    /// The mods of the game, by name and value, in deployment order.
    pub open spec fn mods(&self) -> Entries {
        mod_entries(self.config.mods)
    }

    /// No mod name occurs twice.
    pub open spec fn wf(&self) -> bool {
        self.config.wf()
    }

    /// Whether two games agree in everything but their mods.
    pub open spec fn same_but_mods(&self, other: &Game) -> bool {
        &&& self.name == other.name
        &&& self.config.game_folder == other.config.game_folder
        &&& self.config.data_folder == other.config.data_folder
        &&& self.config.plugins_file == other.config.plugins_file
        &&& self.config.deployment == other.config.deployment
    }

    /// The file that holds this game's configuration, below the directory
    /// `library`.
    pub fn config_file(&self, library: &str) -> (file: String)
        ensures
            file@ == game_config_file_of(library@, self.name@),
    {
        game_config_file(library, self.name.as_str())
    }

    /// The install directory: the game folder itself where no data folder is
    /// set, else the data folder adjoined to the game folder.
    pub fn install_dir(&self) -> (dir: String)
        ensures
            dir@ == self.config.install_dir(),
            self.config.data_folder.is_none() ==> dir@ == self.config.game_folder@,
            self.config.data_folder.is_some() ==> dir@ == joined_path(
                self.config.game_folder@,
                self.config.data_folder.unwrap()@,
            ),
    {
        match &self.config.data_folder {
            Some(data) => join(self.config.game_folder.as_str(), data.as_str()),
            None => self.config.game_folder.clone(),
        }
    }
}

/// Whether a mod's name answers a query: the lowercased name contains the
/// lowercased query.
pub open spec fn name_matches(name: Seq<char>, query: Seq<char>) -> bool {
    occurs_in(lowercase_of(query), lowercase_of(name))
}

/// Whether the mod at `index` is the first whose name answers the query.
pub open spec fn first_match(mods: Entries, query: Seq<char>, index: int) -> bool {
    &&& 0 <= index < mods.len()
    &&& name_matches(mods[index].0, query)
    &&& forall|k: int| 0 <= k < index ==> !name_matches(#[trigger] mods[k].0, query)
}

/// Whether no mod's name answers the query.
pub open spec fn no_match(mods: Entries, query: Seq<char>) -> bool {
    forall|k: int| 0 <= k < mods.len() ==> !name_matches(#[trigger] mods[k].0, query)
}

impl Game {
    /// The place in the deployment order of the first mod whose name answers
    /// `query`, without regard to case; `UnknownMod` with the lowercased query
    /// where there is none.
    pub fn find_mod(&self, query: &str) -> (found: Result<usize, Error>)
        ensures
            match found {
                Ok(index) => first_match(self.mods(), query@, index as int),
                Err(e) => no_match(self.mods(), query@) && e@ == ErrorView::UnknownMod(
                    lowercase_of(query@),
                ),
            },
    {
        let wanted = to_lowercase(query);
        let n: usize = mods_len(&self.config.mods);
        let mut i: usize = 0;
        while i < n
            invariant
                i <= n,
                n == self.mods().len(),
                wanted@ == lowercase_of(query@),
                forall|k: int| 0 <= k < i ==> !name_matches(#[trigger] self.mods()[k].0, query@),
            decreases n - i,
        {
            match mods_get_index(&self.config.mods, i) {
                Some((name, _)) => {
                    let lower = to_lowercase(name.as_str());
                    if contains(lower.as_str(), wanted.as_str()) {
                        return Ok(i);
                    }
                },
                None => {},
            }
            i = i + 1;
        }
        Err(Error::UnknownMod(wanted))
    }

    /// The first mod whose name answers `query`, without regard to case, by
    /// its name and open to change; `UnknownMod` with the lowercased query
    /// where there is none. What the caller writes to the mod is the mod's new
    /// value; nothing else of the game changes.
    pub fn get_mod(&mut self, query: &str) -> (found: Result<(&str, &mut ManagedMod), Error>)
        ensures
            match found {
                Ok((name, mm)) => exists|index: int|
                    {
                        &&& first_match(old(self).mods(), query@, index)
                        &&& #[trigger] old(self).mods()[index] == (name@, (*mm)@)
                        &&& final(self).mods() == old(self).mods().update(
                            index,
                            (name@, (*final(mm))@),
                        )
                    },
                Err(e) => no_match(old(self).mods(), query@) && e@ == ErrorView::UnknownMod(
                    lowercase_of(query@),
                ) && final(self).mods() == old(self).mods(),
            },
            final(self).same_but_mods(old(self)),
            old(self).wf() ==> final(self).wf(),
    {
        match self.find_mod(query) {
            Ok(index) => {
                match mods_get_index_mut(&mut self.config.mods, index) {
                    Some((name, mm)) => Ok((name.as_str(), mm)),
                    None => Err(Error::UnknownMod(to_lowercase(query))),
                }
            },
            Err(e) => Err(e),
        }
    }
}

} // verus!

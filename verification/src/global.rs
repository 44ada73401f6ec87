use vstd::prelude::*;
use vstd::string::StringExecFns;
use crate::error::{Error, ErrorView};
use crate::game::{Config, Game};
use crate::managed::DeploymentMethod;
use crate::mods::Entries;
use crate::strings::{option_view, strings_view};

verus! {

/// What is kept across games: the names of the games under management and
/// which of them is the active one.
#[derive(Debug, Clone)]
pub struct GlobalConfig {
    pub active_game: Option<String>,
    pub games: Vec<String>,
}

/// The mathematical value of a [`GlobalConfig`]: the known games as a set.
pub struct GlobalView {
    pub active_game: Option<Seq<char>>,
    pub games: Set<Seq<char>>,
}

impl GlobalView {
    /// The state after a new game of this name was put under management.
    pub open spec fn with_active(self, name: Seq<char>) -> GlobalView {
        GlobalView { active_game: Some(name), games: self.games.insert(name) }
    }

    /// The game to open for a name: the name itself where it is known.
    pub open spec fn lookup(self, name: Seq<char>) -> Result<Seq<char>, ErrorView> {
        if self.games.contains(name) {
            Ok(name)
        } else {
            Err(ErrorView::UnknownGame(name))
        }
    }

    /// The active game to open: the marked name where one is marked and
    /// known.
    pub open spec fn active(self) -> Result<Seq<char>, ErrorView> {
        match self.active_game {
            Some(name) => self.lookup(name),
            None => Err(ErrorView::NoActiveGame),
        }
    }
}

/// The value of a name or the error in its place.
pub open spec fn name_result(found: Result<String, Error>) -> Result<Seq<char>, ErrorView> {
    match found {
        Ok(name) => Ok(name@),
        Err(e) => Err(e@),
    }
}

impl View for GlobalConfig {
    type V = GlobalView;

    open spec fn view(&self) -> GlobalView {
        GlobalView {
            active_game: option_view(self.active_game),
            games: strings_view(self.games@).to_set(),
        }
    }
}

impl Default for GlobalConfig {
    fn default() -> (global: Self)
        ensures
            global@ == (GlobalView { active_game: None, games: Set::empty() }),
            global.wf(),
    {
        let global = GlobalConfig { active_game: None, games: Vec::new() };
        assert(strings_view(global.games@) =~= Seq::empty());
        assert(strings_view(global.games@).to_set() =~= Set::empty());
        global
    }
}

impl GlobalConfig {
    /// No name is listed twice.
    pub open spec fn wf(&self) -> bool {
        strings_view(self.games@).no_duplicates()
    }

    /// Whether a game of this name is under management.
    pub fn knows(&self, name: &str) -> (known: bool)
        ensures
            known == self@.games.contains(name@),
    {
        let wanted = String::from_str(name);
        let mut i: usize = 0;
        while i < self.games.len()
            invariant
                i <= self.games.len(),
                wanted@ == name@,
                forall|k: int| 0 <= k < i ==> strings_view(self.games@)[k] != name@,
            decreases self.games.len() - i,
        {
            if self.games[i] == wanted {
                assert(strings_view(self.games@)[i as int] == name@);
                return true;
            }
            i = i + 1;
        }
        false
    }

    /// Puts a game under management and makes it the active one.
    ///
    /// A name that is already known is refused with `AlreadyManaged`, and
    /// nothing changes. Else the name joins the known games and becomes the
    /// active game, and the new game is returned for the caller to store: it
    /// has the given paths, the default deployment method and no mods.
    pub fn init_game(
        &mut self,
        name: String,
        folder: String,
        data: Option<String>,
        plugins: Option<String>,
    ) -> (created: Result<Game, Error>)
        ensures
            match created {
                Ok(game) => {
                    &&& !old(self)@.games.contains(name@)
                    &&& game.name == name
                    &&& game.config.game_folder == folder
                    &&& game.config.data_folder == data
                    &&& game.config.plugins_file == plugins
                    &&& game.config.deployment == DeploymentMethod::Hardlink
                    &&& game.mods() == Entries::empty()
                    &&& game.wf()
                    &&& final(self)@ == old(self)@.with_active(name@)
                },
                Err(e) => {
                    &&& old(self)@.games.contains(name@)
                    &&& e@ == ErrorView::AlreadyManaged(name@)
                    &&& *final(self) == *old(self)
                },
            },
            old(self).wf() ==> final(self).wf(),
    {
        if self.knows(name.as_str()) {
            return Err(Error::AlreadyManaged(name));
        }
        self.active_game = Some(name.clone());
        self.games.push(name.clone());
        proof {
            let before = strings_view(old(self).games@);
            assert(strings_view(self.games@) =~= before.push(name@));
            before.lemma_push_to_set_commute(name@);
        }
        Ok(Game { name, config: Config::new(folder, data, plugins) })
    }

    /// The name of the game to open for `name`: the name itself where such a
    /// game is under management, else `UnknownGame` with that name.
    pub fn game(&self, name: &str) -> (found: Result<String, Error>)
        ensures
            name_result(found) == self@.lookup(name@),
    {
        if self.knows(name) {
            Ok(String::from_str(name))
        } else {
            Err(Error::UnknownGame(String::from_str(name)))
        }
    }

    /// The name of the active game to open: `NoActiveGame` where none is
    /// marked, else what [`GlobalConfig::game`] gives for the marked name.
    pub fn active_game(&self) -> (found: Result<String, Error>)
        ensures
            name_result(found) == self@.active(),
    {
        match &self.active_game {
            Some(active) => self.game(active.as_str()),
            None => Err(Error::NoActiveGame),
        }
    }
}

} // verus!

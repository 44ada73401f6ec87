use vstd::prelude::*;
use crate::paths::{join, joined_path};

verus! {

/// The directory of a game below the library directory.
pub open spec fn game_dir_of(library: Seq<char>, game: Seq<char>) -> Seq<char> {
    joined_path(library, game)
}

/// The directory that holds a game's archives.
pub open spec fn downloads_dir_of(library: Seq<char>, game: Seq<char>) -> Seq<char> {
    joined_path(game_dir_of(library, game), "downloads"@)
}

/// The directory that a mod of a game is extracted into.
pub open spec fn extracted_dir_of(library: Seq<char>, game: Seq<char>, mod_name: Seq<char>) -> Seq<
    char,
> {
    joined_path(joined_path(game_dir_of(library, game), "extracted"@), mod_name)
}

/// The file that holds a game's configuration.
pub open spec fn game_config_file_of(library: Seq<char>, game: Seq<char>) -> Seq<char> {
    joined_path(game_dir_of(library, game), "climm.toml"@)
}

/// The file that holds the set of known games.
pub open spec fn global_config_of(library: Seq<char>) -> Seq<char> {
    joined_path(library, "global.toml"@)
}

/// `<library>/<game>`
pub fn game_dir(library: &str, game: &str) -> (dir: String)
    ensures
        dir@ == game_dir_of(library@, game@),
{
    join(library, game)
}

/// `<library>/<game>/downloads`
pub fn downloads_dir(library: &str, game: &str) -> (dir: String)
    ensures
        dir@ == downloads_dir_of(library@, game@),
{
    let game_dir = game_dir(library, game);
    join(game_dir.as_str(), "downloads")
}

/// `<library>/<game>/extracted/<mod>`
pub fn extracted_dir(library: &str, game: &str, mod_name: &str) -> (dir: String)
    ensures
        dir@ == extracted_dir_of(library@, game@, mod_name@),
{
    let game_dir = game_dir(library, game);
    let extracted = join(game_dir.as_str(), "extracted");
    join(extracted.as_str(), mod_name)
}

/// `<library>/<game>/climm.toml`
pub fn game_config_file(library: &str, game: &str) -> (file: String)
    ensures
        file@ == game_config_file_of(library@, game@),
{
    let game_dir = game_dir(library, game);
    join(game_dir.as_str(), "climm.toml")
}

/// `<library>/global.toml`
pub fn global_config(library: &str) -> (file: String)
    ensures
        file@ == global_config_of(library@),
{
    join(library, "global.toml")
}

} // verus!

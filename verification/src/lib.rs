//! Deployment engine of a mod manager: keeps an ordered list of mods per game
//! and plans how their extracted files are linked into the game's directory.
//!
//! The engine itself touches no file. Its caller walks directories, runs the
//! archive tool and creates the links; the engine decides what is to be done
//! and keeps the state of the game and its mods.
//!
//! A deploy runs through the stages that [`game::Game::deploy`] names, each
//! with its own plan:
//!
//! - [`extract`]: which archives to expand, and where to;
//! - [`uninstall`]: which paths of the install directory to clear;
//! - [`install`] and [`links`]: which source roots a mod is deployed from, and
//!   which links to make for them;
//! - [`plugins`]: the text of the load-order manifest.
//!
//! [`tree`] holds what these plans do to the install directory, and what
//! follows from it: later mods override earlier ones, an uninstall leaves no
//! file of a mod behind, and a second deploy changes nothing.

pub mod deploy;
pub mod download;
pub mod error;
pub mod extract;
pub mod game;
pub mod global;
pub mod install;
pub mod layout;
pub mod links;
pub mod managed;
pub mod mods;
pub mod paths;
pub mod plugins;
pub mod strings;
pub mod text;
pub mod tree;
pub mod uninstall;
pub mod walk;

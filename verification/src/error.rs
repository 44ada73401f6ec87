use vstd::prelude::*;

verus! {

/// What an operation of the engine can fail with.
#[derive(Debug, Clone, PartialEq, Eq)]
pub enum Error {
    /// The game of this name is already in the set of known games.
    AlreadyManaged(String),
    /// No game of this name is known.
    UnknownGame(String),
    /// No mod's name contains this (lowercased) query.
    UnknownMod(String),
    /// No game is marked as the active one.
    NoActiveGame,
    /// The path does not lie below the root it was to be taken relative to.
    NotADescendant(String),
}

/// The mathematical value of an [`Error`].
pub enum ErrorView {
    AlreadyManaged(Seq<char>),
    UnknownGame(Seq<char>),
    UnknownMod(Seq<char>),
    NoActiveGame,
    NotADescendant(Seq<char>),
}

impl View for Error {
    type V = ErrorView;

    open spec fn view(&self) -> ErrorView {
        match *self {
            Error::AlreadyManaged(name) => ErrorView::AlreadyManaged(name@),
            Error::UnknownGame(name) => ErrorView::UnknownGame(name@),
            Error::UnknownMod(query) => ErrorView::UnknownMod(query@),
            Error::NoActiveGame => ErrorView::NoActiveGame,
            Error::NotADescendant(path) => ErrorView::NotADescendant(path@),
        }
    }
}

} // verus!

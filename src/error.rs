//! The error type of the library.

use vstd::prelude::*;

verus! {

/// What can go wrong in a brawl.
#[derive(Clone, Debug)]
pub enum Error {
    /// A message could not be delivered to a player, or a player could not
    /// be asked for a move.
    DispatchError(Option<String>),
    /// A player's answer could not be used.
    ResponseError(Option<String>),
    /// No user was found.
    NoUserFound,
    /// Anything else.
    MiscError(String),
}

} // verus!

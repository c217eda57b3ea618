//! What can go wrong inside the core.
use vstd::prelude::*;
use vstd::string::*;
use crate::text::{push_decimal, spec_decimal};

verus! {

/// A failure that a handler reports to its caller.
///
/// A missing entity or session is no failure: the operation does nothing and leaves a
/// [`crate::state::Diagnostic`]. A rejected credential is no failure either: it ends in a forced
/// disconnect.
#[derive(Clone, Copy, Debug, PartialEq, Eq, Structural)]
pub enum Error {
    /// A template names a capability for which no component exists. The entity is not built.
    UnknownComponent(u32),
    /// A message could not be handed to the connection, because it is closed.
    Transport,
    /// The storage collaborator reported that an operation failed.
    Storage,
    /// A partition of the identifier space has no unused identifier left.
    IdSpaceExhausted,
}

impl Error {
    /// The failure in words.
    pub open spec fn spec_describe(self) -> Seq<char> {
        match self {
            Error::UnknownComponent(tag) => "component type "@ + spec_decimal(tag as nat)
                + " not implemented"@,
            Error::Transport => "connection closed"@,
            Error::Storage => "storage failure"@,
            Error::IdSpaceExhausted => "identifier space exhausted"@,
        }
    }

    /// The failure in words.
    pub fn describe(&self) -> (text: String)
        ensures
            text@ == self.spec_describe(),
    {
        match self {
            Error::UnknownComponent(tag) => {
                let mut text = String::from_str("component type ");
                push_decimal(&mut text, *tag as u64);
                text.append(" not implemented");
                text
            },
            Error::Transport => String::from_str("connection closed"),
            Error::Storage => String::from_str("storage failure"),
            Error::IdSpaceExhausted => String::from_str("identifier space exhausted"),
        }
    }
}

/// The result of a handler.
pub type Res<T> = Result<T, Error>;

} // verus!

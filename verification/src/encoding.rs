//! The wire encodings a connection can be opened with.

use vstd::prelude::*;

verus! {

/// How requests and responses are serialised on the connection.
#[derive(Clone, Copy, Debug, PartialEq, Eq, Structural)]
pub enum Encoding {
    /// The compact binary form.
    Borsh,
    /// The human-readable structured form.
    SerdeJson,
}

/// The encoding a run uses for a configured choice: the choice itself, and
/// the compact binary form where none was made.
pub open spec fn selected_encoding(choice: Option<Encoding>) -> Encoding {
    match choice {
        Some(encoding) => encoding,
        None => Encoding::Borsh,
    }
}

/// Picks the encoding for a run from the optional configured choice.
pub fn select_encoding(choice: Option<Encoding>) -> (encoding: Encoding)
    ensures
        encoding == selected_encoding(choice),
{
    match choice {
        Some(encoding) => encoding,
        None => Encoding::Borsh,
    }
}

} // verus!

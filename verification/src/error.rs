//! Why a move of a piece from square to square was refused.

use vstd::prelude::*;

verus! {

/// The reason for which a piece could not be moved from one square to another.
#[derive(Copy, Clone, Debug, PartialEq, Eq, Hash, Structural)]
pub enum MoveError {
    /// No piece stands on the square to move from.
    EmptySource,
    /// Tam2 stands on the square to move from.
    SourceIsNeutral,
    /// The piece on the square to move from belongs to the other player.
    NotOwner,
    /// Tam2 stands on the square to move to, and Tam2 is never taken.
    CannotCaptureNeutral,
    /// A piece of the player who moves stands on the square to move to.
    CannotCaptureOwn,
}

impl MoveError {
    /// A sentence that says what went wrong.
    #[must_use]
    pub fn message(self) -> (text: &'static str)
        ensures
            text@ == (match self {
                MoveError::EmptySource => "src does not contain a piece"@,
                MoveError::SourceIsNeutral =>
                    "Expected a NonTam2Piece to be present at the src, but found a Tam2"@,
                MoveError::NotOwner => "Found the opponent piece at the src"@,
                MoveError::CannotCaptureNeutral => "Tried to capture a Tam2"@,
                MoveError::CannotCaptureOwn => "Tried to capture an ally"@,
            }),
    {
        match self {
            MoveError::EmptySource => "src does not contain a piece",
            MoveError::SourceIsNeutral =>
                "Expected a NonTam2Piece to be present at the src, but found a Tam2",
            MoveError::NotOwner => "Found the opponent piece at the src",
            MoveError::CannotCaptureNeutral => "Tried to capture a Tam2",
            MoveError::CannotCaptureOwn => "Tried to capture an ally",
        }
    }
}

} // verus!

//! Colours, professions and sides: what a piece is, whoever looks at the board.

use vstd::prelude::*;

verus! {

/// The colour of a piece.
#[derive(PartialEq, Eq, Clone, Copy, Debug, Hash, Structural)]
pub enum Color {
    /// Red
    Kok1,
    /// Black
    Huok2,
}

/// The profession of a piece.
#[derive(PartialEq, Eq, Clone, Copy, Debug, Hash, Structural)]
pub enum Profession {
    /// Vessel
    Nuak1,
    /// Pawn
    Kauk2,
    /// Rook
    Gua2,
    /// Bishop
    Kaun1,
    /// Tiger
    Dau2,
    /// Horse
    Maun1,
    /// Clerk
    Kua2,
    /// Shaman
    Tuk2,
    /// General
    Uai1,
    /// King
    Io,
}

/// One of the two players, named by the rows their pieces start on.
#[derive(PartialEq, Eq, Clone, Copy, Debug, Hash, Structural)]
pub enum AbsoluteSide {
    /// The player whose pieces start on the rows A, E and I.
    ASide,
    /// The player whose pieces start on the rows IA, AU and AI.
    IASide,
}

/// A piece other than Tam2 without its owner: what a hop1zuo1 holds.
#[derive(PartialEq, Eq, Clone, Copy, Debug, Hash, Structural)]
pub struct ColorAndProf {
    /// colour of the piece
    pub color: Color,
    /// profession of the piece
    pub prof: Profession,
}

/// The character that stands for a colour in written moves.
pub open spec fn color_text(color: Color) -> Seq<char> {
    match color {
        Color::Kok1 => seq!['赤'],
        Color::Huok2 => seq!['黒'],
    }
}

/// The character that stands for a profession in written moves.
pub open spec fn prof_text(prof: Profession) -> Seq<char> {
    match prof {
        Profession::Nuak1 => seq!['船'],
        Profession::Kauk2 => seq!['兵'],
        Profession::Gua2 => seq!['弓'],
        Profession::Kaun1 => seq!['車'],
        Profession::Dau2 => seq!['虎'],
        Profession::Maun1 => seq!['馬'],
        Profession::Kua2 => seq!['筆'],
        Profession::Tuk2 => seq!['巫'],
        Profession::Uai1 => seq!['将'],
        Profession::Io => seq!['王'],
    }
}

/// Calls `cetkaik_fundamental::serialize_color` on the same colour.
/// Trusted: the text it returns is the one character of `color_text`.
#[verifier::external_body]
pub(crate) fn serialize_color(color: Color) -> (text: &'static str)
    ensures
        text@ == color_text(color),
{
    cetkaik_fundamental::serialize_color(
        match color {
            Color::Kok1 => cetkaik_fundamental::Color::Kok1,
            Color::Huok2 => cetkaik_fundamental::Color::Huok2,
        },
    )
}

/// Calls `cetkaik_fundamental::serialize_prof` on the same profession.
/// Trusted: the text it returns is the one character of `prof_text`.
#[verifier::external_body]
pub(crate) fn serialize_prof(prof: Profession) -> (text: &'static str)
    ensures
        text@ == prof_text(prof),
{
    cetkaik_fundamental::serialize_prof(
        match prof {
            Profession::Nuak1 => cetkaik_fundamental::Profession::Nuak1,
            Profession::Kauk2 => cetkaik_fundamental::Profession::Kauk2,
            Profession::Gua2 => cetkaik_fundamental::Profession::Gua2,
            Profession::Kaun1 => cetkaik_fundamental::Profession::Kaun1,
            Profession::Dau2 => cetkaik_fundamental::Profession::Dau2,
            Profession::Maun1 => cetkaik_fundamental::Profession::Maun1,
            Profession::Kua2 => cetkaik_fundamental::Profession::Kua2,
            Profession::Tuk2 => cetkaik_fundamental::Profession::Tuk2,
            Profession::Uai1 => cetkaik_fundamental::Profession::Uai1,
            Profession::Io => cetkaik_fundamental::Profession::Io,
        },
    )
}

} // verus!

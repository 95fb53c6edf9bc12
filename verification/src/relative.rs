//! The board in relative terms: "which piece is the opponent's?"

use crate::error::MoveError;
use crate::fundamental::{
    color_text, prof_text, serialize_color, serialize_prof, Color, Profession,
};
use crate::text::{decimal, spec_decimal};
use std::ops::Not;
use vstd::prelude::*;
use vstd::string::StringExecFns;

verus! {

/// One of the two players, named by the way their pieces point.
#[derive(Copy, Clone, Debug, Eq, PartialEq, Hash, Structural)]
pub enum Side {
    /// The player whose pieces point upward: you.
    Upward,
    /// The player whose pieces point downward: the opponent.
    Downward,
}

impl Side {
    /// The other side.
    pub open spec fn flip(self) -> Side {
        match self {
            Side::Upward => Side::Downward,
            Side::Downward => Side::Upward,
        }
    }
}

impl vstd::std_specs::ops::NotSpecImpl for Side {
    open spec fn obeys_not_spec() -> bool {
        true
    }

    open spec fn not_req(self) -> bool {
        true
    }

    open spec fn not_spec(self) -> Side {
        self.flip()
    }
}

impl Not for Side {
    type Output = Side;

    fn not(self) -> (flipped: Side) {
        match self {
            Side::Upward => Side::Downward,
            Side::Downward => Side::Upward,
        }
    }
}

/// A piece other than Tam2 that points downward (the opponent's).
#[derive(Copy, Clone, Debug, Eq, PartialEq, Hash, Structural)]
pub struct NonTam2PieceDownward {
    /// colour of the piece
    pub color: Color,
    /// profession of the piece
    pub prof: Profession,
}

/// A piece other than Tam2 that points upward (yours).
#[derive(Copy, Clone, Debug, Eq, PartialEq, Hash, Structural)]
pub struct NonTam2PieceUpward {
    /// colour of the piece
    pub color: Color,
    /// profession of the piece
    pub prof: Profession,
}

/// A piece on the board.
#[derive(Copy, Clone, Debug, Eq, PartialEq, Hash, Structural)]
pub enum Piece {
    /// Tam2, the one piece that belongs to neither side; both players may move it.
    Tam2,
    /// Every other piece; it belongs to one side.
    NonTam2Piece {
        /// colour of the piece
        color: Color,
        /// profession of the piece
        prof: Profession,
        /// the side that owns the piece
        side: Side,
    },
}

impl vstd::std_specs::convert::FromSpecImpl<NonTam2PieceUpward> for Piece {
    open spec fn obeys_from_spec() -> bool {
        true
    }

    open spec fn from_spec(from: NonTam2PieceUpward) -> Piece {
        Piece::NonTam2Piece { color: from.color, prof: from.prof, side: Side::Upward }
    }
}

impl From<NonTam2PieceUpward> for Piece {
    fn from(from: NonTam2PieceUpward) -> (piece: Piece) {
        Piece::NonTam2Piece { color: from.color, prof: from.prof, side: Side::Upward }
    }
}

impl vstd::std_specs::convert::FromSpecImpl<NonTam2PieceDownward> for Piece {
    open spec fn obeys_from_spec() -> bool {
        true
    }

    open spec fn from_spec(from: NonTam2PieceDownward) -> Piece {
        Piece::NonTam2Piece { color: from.color, prof: from.prof, side: Side::Downward }
    }
}

impl From<NonTam2PieceDownward> for Piece {
    fn from(from: NonTam2PieceDownward) -> (piece: Piece) {
        Piece::NonTam2Piece { color: from.color, prof: from.prof, side: Side::Downward }
    }
}

impl Piece {
    /// Whether the piece is Tam2.
    #[must_use]
    pub fn is_tam2(self) -> (r: bool)
        ensures
            r == (self is Tam2),
    {
        match self {
            Piece::Tam2 => true,
            Piece::NonTam2Piece { .. } => false,
        }
    }

    /// Whether the piece has the given colour. Tam2 has none.
    #[must_use]
    pub fn has_color(self, clr: Color) -> (r: bool)
        ensures
            r == (self matches Piece::NonTam2Piece { color, .. } && color == clr),
    {
        match self {
            Piece::Tam2 => false,
            Piece::NonTam2Piece { color, .. } => color == clr,
        }
    }

    /// Whether the piece has the given profession. Tam2 has none.
    #[must_use]
    pub fn has_prof(self, prf: Profession) -> (r: bool)
        ensures
            r == (self matches Piece::NonTam2Piece { prof, .. } && prof == prf),
    {
        match self {
            Piece::Tam2 => false,
            Piece::NonTam2Piece { prof, .. } => prof == prf,
        }
    }

    /// Whether the piece belongs to the given side. Tam2 belongs to neither.
    #[must_use]
    pub fn has_side(self, sid: Side) -> (r: bool)
        ensures
            r == (self matches Piece::NonTam2Piece { side, .. } && side == sid),
    {
        match self {
            Piece::Tam2 => false,
            Piece::NonTam2Piece { side, .. } => side == sid,
        }
    }

    /// The piece as the other player sees it: Tam2 stays Tam2, any other piece
    /// keeps colour and profession and changes sides.
    pub open spec fn rotate(self) -> Piece {
        match self {
            Piece::Tam2 => Piece::Tam2,
            Piece::NonTam2Piece { color, prof, side } => Piece::NonTam2Piece {
                color,
                prof,
                side: side.flip(),
            },
        }
    }
}

/// What stands on a square as the other player sees it.
pub open spec fn spec_rotate_piece_or_null(p: Option<Piece>) -> Option<Piece> {
    match p {
        None => None,
        Some(piece) => Some(piece.rotate()),
    }
}

/// Turns what stands on a square into what the other player sees there.
#[must_use]
pub(crate) fn rotate_piece_or_null(p: Option<Piece>) -> (r: Option<Piece>)
    ensures
        r == spec_rotate_piece_or_null(p),
{
    let p = p?;
    match p {
        Piece::Tam2 => Some(p),
        Piece::NonTam2Piece { prof, color, side } => Some(
            Piece::NonTam2Piece { prof, color, side: side.not() },
        ),
    }
}

/// The position of a square as [row, column], both counted from 0 at the far
/// left corner of the viewer.
pub type Coord = [usize; 2];

/// Row and column of a coordinate as a pair of integers.
pub open spec fn square(c: Coord) -> (int, int) {
    (c[0] as int, c[1] as int)
}

/// Whether a pair of integers names one of the 81 squares.
pub open spec fn on_board(c: (int, int)) -> bool {
    0 <= c.0 < 9 && 0 <= c.1 < 9
}

/// A coordinate as text: both numbers in decimal digits, with a comma between
/// them, in square brackets.
pub open spec fn spec_serialize_coord(coord: (int, int)) -> Seq<char> {
    seq!['['] + spec_decimal(coord.0 as nat) + seq![','] + spec_decimal(coord.1 as nat) + seq![']']
}

/// Serializes a coordinate in the style of JSON, as in `[5,6]`.
#[must_use]
pub fn serialize_coord(coord: Coord) -> (text: String)
    ensures
        text@ == spec_serialize_coord(square(coord)),
{
    proof {
        reveal_strlit("[");
        reveal_strlit(",");
        reveal_strlit("]");
    }
    let mut text = String::from_str("[");
    text.append(decimal(coord[0]).as_str());
    text.append(",");
    text.append(decimal(coord[1]).as_str());
    text.append("]");
    assert(text@ =~= spec_serialize_coord(square(coord)));
    text
}

/// The square that a square becomes when the board is turned by 180 degrees.
pub open spec fn spec_rotate_coord(c: (int, int)) -> (int, int) {
    (8 - c.0, 8 - c.1)
}

/// Rotates the coordinate by 180 degrees about the centre of the board.
#[must_use]
pub fn rotate_coord(c: Coord) -> (r: Coord)
    requires
        on_board(square(c)),
    ensures
        square(r) == spec_rotate_coord(square(c)),
        on_board(square(r)),
{
    [(8 - c[0]), (8 - c[1])]
}

/// Whether the square is tam2 nua2, the water: the middle row and the middle
/// column, each from its third square to its seventh.
pub open spec fn spec_is_water(c: (int, int)) -> bool {
    (c.0 == 4 && 2 <= c.1 <= 6) || (c.1 == 4 && 2 <= c.0 <= 6)
}

/// Checks whether the square is tam2 nua2 (the water), entry to which is restricted.
#[must_use]
pub fn is_water(c: Coord) -> (r: bool)
    ensures
        r == spec_is_water(square(c)),
{
    let row: usize = c[0];
    let col: usize = c[1];
    (row == 4 && col == 2) || (row == 4 && col == 3) || (row == 4 && col == 4) || (row == 4 && col
        == 5) || (row == 4 && col == 6) || (row == 2 && col == 4) || (row == 3 && col == 4) || (row
        == 5 && col == 4) || (row == 6 && col == 4)
}

/// The distance between two squares: the larger of the difference of their
/// rows and the difference of their columns.
pub open spec fn spec_distance(a: (int, int), b: (int, int)) -> int {
    let x_distance = if a.0 >= b.0 {
        a.0 - b.0
    } else {
        b.0 - a.0
    };
    let y_distance = if a.1 >= b.1 {
        a.1 - b.1
    } else {
        b.1 - a.1
    };
    if x_distance >= y_distance {
        x_distance
    } else {
        y_distance
    }
}

/// Calculates the distance between two squares: the larger of the difference
/// of their rows and the difference of their columns.
///
/// Every number in the two coordinates has to fit in an `i32`.
#[must_use]
pub fn distance(a: Coord, b: Coord) -> (d: i32)
    requires
        a[0] <= i32::MAX,
        a[1] <= i32::MAX,
        b[0] <= i32::MAX,
        b[1] <= i32::MAX,
    ensures
        d == spec_distance(square(a), square(b)),
{
    let x1: i32 = a[0] as i32;
    let y1: i32 = a[1] as i32;
    let x2: i32 = b[0] as i32;
    let y2: i32 = b[1] as i32;

    let x_distance: i32 = if x1 >= x2 {
        x1 - x2
    } else {
        x2 - x1
    };
    let y_distance: i32 = if y1 >= y2 {
        y1 - y2
    } else {
        y2 - y1
    };

    if x_distance >= y_distance {
        x_distance
    } else {
        y_distance
    }
}

/// The arrow that stands for a side in written pieces.
pub open spec fn side_text(side: Side) -> Seq<char> {
    match side {
        Side::Upward => seq!['↑'],
        Side::Downward => seq!['↓'],
    }
}

/// Serializes a side as the arrow that points its way.
#[must_use]
pub fn serialize_side(side: Side) -> (text: &'static str)
    ensures
        text@ == side_text(side),
{
    proof {
        reveal_strlit("↑");
        reveal_strlit("↓");
    }
    let text = match side {
        Side::Upward => "↑",
        Side::Downward => "↓",
    };
    assert(text@ =~= side_text(side));
    text
}

/// A piece as text: one character for Tam2; colour, profession and arrow for
/// any other piece.
pub open spec fn spec_serialize_piece(p: Piece) -> Seq<char> {
    match p {
        Piece::Tam2 => seq!['皇'],
        Piece::NonTam2Piece { prof, color, side } => color_text(color) + prof_text(prof)
            + side_text(side),
    }
}

/// Serializes a piece, as in `赤将↓`.
#[must_use]
pub fn serialize_piece(p: Piece) -> (text: String)
    ensures
        text@ == spec_serialize_piece(p),
{
    proof {
        reveal_strlit("皇");
    }
    match p {
        Piece::Tam2 => {
            let text = String::from_str("皇");
            assert(text@ =~= spec_serialize_piece(p));
            text
        },
        Piece::NonTam2Piece { prof, color, side } => {
            let mut text = String::from_str(serialize_color(color));
            text.append(serialize_prof(prof));
            text.append(serialize_side(side));
            text
        },
    }
}

/// A single row of nine squares.
pub type SingleRow = [Option<Piece>; 9];

/// The board: nine rows of nine squares, each empty or holding a piece.
#[derive(Clone, Debug, Eq, Hash, Copy)]
pub struct Board(pub [SingleRow; 9]);

impl vstd::std_specs::cmp::PartialEqSpecImpl for Board {
    open spec fn obeys_eq_spec() -> bool {
        true
    }

    open spec fn eq_spec(&self, other: &Board) -> bool {
        *self == *other
    }
}

impl PartialEq for Board {
    fn eq(&self, other: &Board) -> (same: bool) {
        for i in 0..9usize
            invariant
                forall|k: int, l: int| 0 <= k < i && 0 <= l < 9 ==> self.0[k][l] == other.0[k][l],
        {
            for j in 0..9usize
                invariant
                    i < 9,
                    forall|k: int, l: int|
                        0 <= k < i && 0 <= l < 9 ==> self.0[k][l] == other.0[k][l],
                    forall|l: int| 0 <= l < j ==> self.0[i as int][l] == other.0[i as int][l],
            {
                if self.0[i][j] != other.0[i][j] {
                    return false;
                }
            }
        }
        assert(self.0 =~= other.0) by {
            assert forall|k: int| 0 <= k < 9 implies self.0[k] == other.0[k] by {
                assert(self.0[k] =~= other.0[k]);
            }
        }
        true
    }
}

impl View for Board {
    type V = Map<(int, int), Piece>;

    /// The occupied squares, each with the piece that stands on it.
    open spec fn view(&self) -> Map<(int, int), Piece> {
        Map::new(
            |c: (int, int)| on_board(c) && self.0[c.0][c.1] is Some,
            |c: (int, int)| self.0[c.0][c.1]->0,
        )
    }
}

impl Board {
    /// The piece on a square, if there is one. The board stays as it is.
    #[must_use]
    pub fn peek(&self, c: Coord) -> (piece: Option<Piece>)
        requires
            on_board(square(c)),
        ensures
            piece == self@.get(square(c)),
    {
        self.0[c[0]][c[1]]
    }

    /// Takes the piece off a square and returns it, if there is one. The
    /// square is empty afterwards, so a second call returns `None`.
    pub fn pop(&mut self, c: Coord) -> (piece: Option<Piece>)
        requires
            on_board(square(c)),
        ensures
            piece == old(self)@.get(square(c)),
            final(self)@ == old(self)@.remove(square(c)),
            final(self)@.get(square(c)) is None,
    {
        let o = self.peek(c);
        self.0[c[0]][c[1]] = None;
        assert(self@ =~= old(self)@.remove(square(c)));
        o
    }

    /// Sets a square to hold the given piece, or to be empty; what stood there
    /// before is lost.
    pub fn put(&mut self, c: Coord, p: Option<Piece>)
        requires
            on_board(square(c)),
        ensures
            final(self)@ == (match p {
                Some(piece) => old(self)@.insert(square(c), piece),
                None => old(self)@.remove(square(c)),
            }),
    {
        self.0[c[0]][c[1]] = p;
        assert(self@ =~= (match p {
            Some(piece) => old(self)@.insert(square(c), piece),
            None => old(self)@.remove(square(c)),
        }));
    }

    /// States that a square is empty: a call is accepted only where it is.
    pub fn assert_empty(&self, c: Coord)
        requires
            on_board(square(c)),
            !self@.contains_key(square(c)),
    {
    }

    /// States that a square is occupied: a call is accepted only where it is.
    pub fn assert_occupied(&self, c: Coord)
        requires
            on_board(square(c)),
            self@.contains_key(square(c)),
    {
    }
}

/// The board as the other player sees it: every piece on the square that is
/// the rotation of its own, and on the other side.
pub open spec fn spec_rotate_board(board: Map<(int, int), Piece>) -> Map<(int, int), Piece> {
    Map::new(
        |c: (int, int)| on_board(c) && board.contains_key(spec_rotate_coord(c)),
        |c: (int, int)| board[spec_rotate_coord(c)].rotate(),
    )
}

/// Rotates a board by 180 degrees and exchanges the two sides.
#[must_use]
pub fn rotate_board(b: &Board) -> (r: Board)
    ensures
        r@ == spec_rotate_board(b@),
{
    let mut ans: Board = Board(
        [
            [None, None, None, None, None, None, None, None, None],
            [None, None, None, None, None, None, None, None, None],
            [None, None, None, None, None, None, None, None, None],
            [None, None, None, None, None, None, None, None, None],
            [None, None, None, None, None, None, None, None, None],
            [None, None, None, None, None, None, None, None, None],
            [None, None, None, None, None, None, None, None, None],
            [None, None, None, None, None, None, None, None, None],
            [None, None, None, None, None, None, None, None, None],
        ],
    );
    for i in 0..9usize
        invariant
            forall|k: int, l: int|
                0 <= k < i && 0 <= l < 9 ==> #[trigger] ans.0[k][l] == spec_rotate_piece_or_null(
                    b.0[8 - k][8 - l],
                ),
    {
        for j in 0..9usize
            invariant
                i < 9,
                forall|k: int, l: int|
                    (0 <= k < i && 0 <= l < 9) || (k == i && 0 <= l < j) ==> #[trigger] ans.0[k][l]
                        == spec_rotate_piece_or_null(b.0[8 - k][8 - l]),
        {
            ans.0[i][j] = rotate_piece_or_null(b.0[8 - i][8 - j]);
        }
    }
    assert(ans@ =~= spec_rotate_board(b@));
    ans
}

/// The profession of the piece that starts on a square of a player's camp,
/// if one does. The three rows of the camp count from the player's own back
/// row, the squares of a row from the player's own left.
pub open spec fn spec_initial_profession(rank: int, file: int) -> Option<Profession> {
    let from_middle = if file >= 4 {
        file - 4
    } else {
        4 - file
    };
    if rank == 0 {
        Some(
            if from_middle == 0 {
                Profession::Io
            } else if from_middle == 1 {
                Profession::Uai1
            } else if from_middle == 2 {
                Profession::Kaun1
            } else if from_middle == 3 {
                Profession::Maun1
            } else {
                Profession::Kua2
            },
        )
    } else if rank == 1 {
        if from_middle == 1 {
            Some(Profession::Dau2)
        } else if from_middle == 3 {
            Some(Profession::Gua2)
        } else if from_middle == 4 {
            Some(Profession::Tuk2)
        } else {
            None
        }
    } else {
        Some(
            if from_middle == 0 {
                Profession::Nuak1
            } else {
                Profession::Kauk2
            },
        )
    }
}

/// The colour of the piece that starts on a square of a player's camp, rows
/// and squares counted as for the profession. On the middle square of a row
/// the colour is that of the player's king; elsewhere both camps agree.
pub open spec fn spec_initial_color(rank: int, file: int, black_king: bool) -> Color {
    if file == 4 {
        if black_king {
            Color::Huok2
        } else {
            Color::Kok1
        }
    } else if rank == 0 {
        if file < 4 {
            Color::Kok1
        } else {
            Color::Huok2
        }
    } else if rank == 1 {
        if file < 4 {
            Color::Huok2
        } else {
            Color::Kok1
        }
    } else {
        if file % 2 == 0 {
            Color::Huok2
        } else {
            Color::Kok1
        }
    }
}

/// What starts on a square where the player with the black king is Upward:
/// Tam2 in the middle of the board, the camp of Upward on the three rows
/// below, and the camp of Downward, turned by 180 degrees, on the three rows
/// above.
pub open spec fn spec_initial_square(c: (int, int)) -> Option<Piece> {
    if c == (4int, 4int) {
        Some(Piece::Tam2)
    } else if 6 <= c.0 <= 8 && 0 <= c.1 <= 8 {
        match spec_initial_profession(8 - c.0, c.1) {
            Some(prof) => Some(
                Piece::NonTam2Piece {
                    color: spec_initial_color(8 - c.0, c.1, true),
                    prof,
                    side: Side::Upward,
                },
            ),
            None => None,
        }
    } else if 0 <= c.0 <= 2 && 0 <= c.1 <= 8 {
        match spec_initial_profession(c.0, 8 - c.1) {
            Some(prof) => Some(
                Piece::NonTam2Piece {
                    color: spec_initial_color(c.0, 8 - c.1, false),
                    prof,
                    side: Side::Downward,
                },
            ),
            None => None,
        }
    } else {
        None
    }
}

/// The board at the start of a game where the player with the black king is
/// Upward.
pub open spec fn spec_yhuap_initial_board() -> Map<(int, int), Piece> {
    Map::new(
        |c: (int, int)| spec_initial_square(c) is Some,
        |c: (int, int)| spec_initial_square(c)->0,
    )
}

/// Returns the initial configuration as specified in the y1 huap1 (the
/// standardized rule). The red king points upward (you).
#[must_use]
pub fn yhuap_initial_board_where_red_king_points_upward() -> (r: Board)
    ensures
        r@ == spec_rotate_board(spec_yhuap_initial_board()),
{
    rotate_board(&yhuap_initial_board_where_black_king_points_upward())
}

/// Returns the initial configuration as specified in the y1 huap1 (the
/// standardized rule). The black king points upward (you).
#[must_use]
#[allow(clippy::too_many_lines)]
pub fn yhuap_initial_board_where_black_king_points_upward() -> (r: Board)
    ensures
        r@ == spec_yhuap_initial_board(),
{
    let r = Board([
        [
            Some(Piece::NonTam2Piece {
                color: Color::Huok2,
                prof: Profession::Kua2,
                side: Side::Downward,
            }),
            Some(Piece::NonTam2Piece {
                color: Color::Huok2,
                prof: Profession::Maun1,
                side: Side::Downward,
            }),
            Some(Piece::NonTam2Piece {
                color: Color::Huok2,
                prof: Profession::Kaun1,
                side: Side::Downward,
            }),
            Some(Piece::NonTam2Piece {
                color: Color::Huok2,
                prof: Profession::Uai1,
                side: Side::Downward,
            }),
            Some(Piece::NonTam2Piece {
                color: Color::Kok1,
                prof: Profession::Io,
                side: Side::Downward,
            }),
            Some(Piece::NonTam2Piece {
                color: Color::Kok1,
                prof: Profession::Uai1,
                side: Side::Downward,
            }),
            Some(Piece::NonTam2Piece {
                color: Color::Kok1,
                prof: Profession::Kaun1,
                side: Side::Downward,
            }),
            Some(Piece::NonTam2Piece {
                color: Color::Kok1,
                prof: Profession::Maun1,
                side: Side::Downward,
            }),
            Some(Piece::NonTam2Piece {
                color: Color::Kok1,
                prof: Profession::Kua2,
                side: Side::Downward,
            }),
        ],
        [
            Some(Piece::NonTam2Piece {
                color: Color::Kok1,
                prof: Profession::Tuk2,
                side: Side::Downward,
            }),
            Some(Piece::NonTam2Piece {
                color: Color::Kok1,
                prof: Profession::Gua2,
                side: Side::Downward,
            }),
            None,
            Some(Piece::NonTam2Piece {
                color: Color::Kok1,
                prof: Profession::Dau2,
                side: Side::Downward,
            }),
            None,
            Some(Piece::NonTam2Piece {
                color: Color::Huok2,
                prof: Profession::Dau2,
                side: Side::Downward,
            }),
            None,
            Some(Piece::NonTam2Piece {
                color: Color::Huok2,
                prof: Profession::Gua2,
                side: Side::Downward,
            }),
            Some(Piece::NonTam2Piece {
                color: Color::Huok2,
                prof: Profession::Tuk2,
                side: Side::Downward,
            }),
        ],
        [
            Some(Piece::NonTam2Piece {
                color: Color::Huok2,
                prof: Profession::Kauk2,
                side: Side::Downward,
            }),
            Some(Piece::NonTam2Piece {
                color: Color::Kok1,
                prof: Profession::Kauk2,
                side: Side::Downward,
            }),
            Some(Piece::NonTam2Piece {
                color: Color::Huok2,
                prof: Profession::Kauk2,
                side: Side::Downward,
            }),
            Some(Piece::NonTam2Piece {
                color: Color::Kok1,
                prof: Profession::Kauk2,
                side: Side::Downward,
            }),
            Some(Piece::NonTam2Piece {
                color: Color::Kok1,
                prof: Profession::Nuak1,
                side: Side::Downward,
            }),
            Some(Piece::NonTam2Piece {
                color: Color::Kok1,
                prof: Profession::Kauk2,
                side: Side::Downward,
            }),
            Some(Piece::NonTam2Piece {
                color: Color::Huok2,
                prof: Profession::Kauk2,
                side: Side::Downward,
            }),
            Some(Piece::NonTam2Piece {
                color: Color::Kok1,
                prof: Profession::Kauk2,
                side: Side::Downward,
            }),
            Some(Piece::NonTam2Piece {
                color: Color::Huok2,
                prof: Profession::Kauk2,
                side: Side::Downward,
            }),
        ],
        [None, None, None, None, None, None, None, None, None],
        [
            None,
            None,
            None,
            None,
            Some(Piece::Tam2),
            None,
            None,
            None,
            None,
        ],
        [None, None, None, None, None, None, None, None, None],
        [
            Some(Piece::NonTam2Piece {
                color: Color::Huok2,
                prof: Profession::Kauk2,
                side: Side::Upward,
            }),
            Some(Piece::NonTam2Piece {
                color: Color::Kok1,
                prof: Profession::Kauk2,
                side: Side::Upward,
            }),
            Some(Piece::NonTam2Piece {
                color: Color::Huok2,
                prof: Profession::Kauk2,
                side: Side::Upward,
            }),
            Some(Piece::NonTam2Piece {
                color: Color::Kok1,
                prof: Profession::Kauk2,
                side: Side::Upward,
            }),
            Some(Piece::NonTam2Piece {
                color: Color::Huok2,
                prof: Profession::Nuak1,
                side: Side::Upward,
            }),
            Some(Piece::NonTam2Piece {
                color: Color::Kok1,
                prof: Profession::Kauk2,
                side: Side::Upward,
            }),
            Some(Piece::NonTam2Piece {
                color: Color::Huok2,
                prof: Profession::Kauk2,
                side: Side::Upward,
            }),
            Some(Piece::NonTam2Piece {
                color: Color::Kok1,
                prof: Profession::Kauk2,
                side: Side::Upward,
            }),
            Some(Piece::NonTam2Piece {
                color: Color::Huok2,
                prof: Profession::Kauk2,
                side: Side::Upward,
            }),
        ],
        [
            Some(Piece::NonTam2Piece {
                color: Color::Huok2,
                prof: Profession::Tuk2,
                side: Side::Upward,
            }),
            Some(Piece::NonTam2Piece {
                color: Color::Huok2,
                prof: Profession::Gua2,
                side: Side::Upward,
            }),
            None,
            Some(Piece::NonTam2Piece {
                color: Color::Huok2,
                prof: Profession::Dau2,
                side: Side::Upward,
            }),
            None,
            Some(Piece::NonTam2Piece {
                color: Color::Kok1,
                prof: Profession::Dau2,
                side: Side::Upward,
            }),
            None,
            Some(Piece::NonTam2Piece {
                color: Color::Kok1,
                prof: Profession::Gua2,
                side: Side::Upward,
            }),
            Some(Piece::NonTam2Piece {
                color: Color::Kok1,
                prof: Profession::Tuk2,
                side: Side::Upward,
            }),
        ],
        [
            Some(Piece::NonTam2Piece {
                color: Color::Kok1,
                prof: Profession::Kua2,
                side: Side::Upward,
            }),
            Some(Piece::NonTam2Piece {
                color: Color::Kok1,
                prof: Profession::Maun1,
                side: Side::Upward,
            }),
            Some(Piece::NonTam2Piece {
                color: Color::Kok1,
                prof: Profession::Kaun1,
                side: Side::Upward,
            }),
            Some(Piece::NonTam2Piece {
                color: Color::Kok1,
                prof: Profession::Uai1,
                side: Side::Upward,
            }),
            Some(Piece::NonTam2Piece {
                color: Color::Huok2,
                prof: Profession::Io,
                side: Side::Upward,
            }),
            Some(Piece::NonTam2Piece {
                color: Color::Huok2,
                prof: Profession::Uai1,
                side: Side::Upward,
            }),
            Some(Piece::NonTam2Piece {
                color: Color::Huok2,
                prof: Profession::Kaun1,
                side: Side::Upward,
            }),
            Some(Piece::NonTam2Piece {
                color: Color::Huok2,
                prof: Profession::Maun1,
                side: Side::Upward,
            }),
            Some(Piece::NonTam2Piece {
                color: Color::Huok2,
                prof: Profession::Kua2,
                side: Side::Upward,
            }),
        ],
    ]);
    assert(r@ =~= spec_yhuap_initial_board());
    r
}

/// The field: a board and the hop1zuo1 (the pieces in hand) of each side.
#[derive(Debug, Hash)]
pub struct Field {
    /// the board
    pub current_board: Board,
    /// the hop1zuo1 of Upward (you)
    pub hop1zuo1of_upward: Vec<NonTam2PieceUpward>,
    /// the hop1zuo1 of Downward (the opponent)
    pub hop1zuo1of_downward: Vec<NonTam2PieceDownward>,
}

/// A field as a value: the occupied squares with their pieces, and each
/// hop1zuo1 in the order in which its pieces came.
#[verifier::ext_equal]
pub struct FieldView {
    /// the occupied squares, each with its piece
    pub current_board: Map<(int, int), Piece>,
    /// the hop1zuo1 of Upward
    pub hop1zuo1of_upward: Seq<NonTam2PieceUpward>,
    /// the hop1zuo1 of Downward
    pub hop1zuo1of_downward: Seq<NonTam2PieceDownward>,
}

impl View for Field {
    type V = FieldView;

    open spec fn view(&self) -> FieldView {
        FieldView {
            current_board: self.current_board@,
            hop1zuo1of_upward: self.hop1zuo1of_upward@,
            hop1zuo1of_downward: self.hop1zuo1of_downward@,
        }
    }
}

impl FieldView {
    /// The field with the board replaced.
    pub open spec fn with_board(self, board: Map<(int, int), Piece>) -> FieldView {
        FieldView { current_board: board, ..self }
    }

    /// The field with a piece added to the hop1zuo1 of a side; it comes last.
    pub open spec fn with_piece_in_hop1zuo1(
        self,
        color: Color,
        prof: Profession,
        side: Side,
    ) -> FieldView {
        match side {
            Side::Upward => FieldView {
                hop1zuo1of_upward: self.hop1zuo1of_upward.push(NonTam2PieceUpward { color, prof }),
                ..self
            },
            Side::Downward => FieldView {
                hop1zuo1of_downward: self.hop1zuo1of_downward.push(
                    NonTam2PieceDownward { color, prof },
                ),
                ..self
            },
        }
    }

    /// Whether the hop1zuo1 of a side holds a piece of the given colour and
    /// profession.
    pub open spec fn has_in_hop1zuo1(self, color: Color, prof: Profession, side: Side) -> bool {
        match side {
            Side::Upward => self.hop1zuo1of_upward.contains(NonTam2PieceUpward { color, prof }),
            Side::Downward => self.hop1zuo1of_downward.contains(
                NonTam2PieceDownward { color, prof },
            ),
        }
    }

    /// The field without the first piece of the given colour and profession
    /// in the hop1zuo1 of a side.
    pub open spec fn without_piece_in_hop1zuo1(
        self,
        color: Color,
        prof: Profession,
        side: Side,
    ) -> FieldView {
        match side {
            Side::Upward => FieldView {
                hop1zuo1of_upward: self.hop1zuo1of_upward.remove_value(
                    NonTam2PieceUpward { color, prof },
                ),
                ..self
            },
            Side::Downward => FieldView {
                hop1zuo1of_downward: self.hop1zuo1of_downward.remove_value(
                    NonTam2PieceDownward { color, prof },
                ),
                ..self
            },
        }
    }

    /// What becomes of the field when `whose_turn` moves the piece on `src`
    /// to `dest`.
    ///
    /// The piece has to be there, not to be Tam2, and to belong to
    /// `whose_turn`. A piece that stands on `dest` is taken: it must not be
    /// Tam2 nor belong to `whose_turn`, it leaves the board, and its colour
    /// and profession come last in the hop1zuo1 of `whose_turn`.
    pub open spec fn move_piece(
        self,
        src: (int, int),
        dest: (int, int),
        whose_turn: Side,
    ) -> Result<FieldView, MoveError> {
        match self.current_board.get(src) {
            None => Err(MoveError::EmptySource),
            Some(Piece::Tam2) => Err(MoveError::SourceIsNeutral),
            Some(Piece::NonTam2Piece { color, prof, side }) => if side != whose_turn {
                Err(MoveError::NotOwner)
            } else {
                let moved = self.current_board.remove(src).insert(
                    dest,
                    Piece::NonTam2Piece { color, prof, side },
                );
                match self.current_board.get(dest) {
                    None => Ok(self.with_board(moved)),
                    Some(Piece::Tam2) => Err(MoveError::CannotCaptureNeutral),
                    Some(
                        Piece::NonTam2Piece {
                            color: taken_color,
                            prof: taken_prof,
                            side: taken_side,
                        },
                    ) => if taken_side == whose_turn {
                        Err(MoveError::CannotCaptureOwn)
                    } else {
                        Ok(
                            self.with_board(moved).with_piece_in_hop1zuo1(
                                taken_color,
                                taken_prof,
                                whose_turn,
                            ),
                        )
                    },
                }
            },
        }
    }

    /// What becomes of the field when `side` takes a piece of the given
    /// colour and profession from its hop1zuo1 and sets it on `dest`.
    ///
    /// There has to be such a piece in the hop1zuo1, and `dest` has to be
    /// empty. The first such piece leaves the hop1zuo1.
    pub open spec fn parachute(
        self,
        color: Color,
        prof: Profession,
        side: Side,
        dest: (int, int),
    ) -> Option<FieldView> {
        if !self.has_in_hop1zuo1(color, prof, side) || self.current_board.contains_key(dest) {
            None
        } else {
            Some(
                self.with_board(
                    self.current_board.insert(dest, Piece::NonTam2Piece { color, prof, side }),
                ).without_piece_in_hop1zuo1(color, prof, side),
            )
        }
    }
}

impl Clone for Field {
    fn clone(&self) -> (copy: Field)
        ensures
            copy@ == self@,
            copy.current_board == self.current_board,
    {
        Field {
            current_board: self.current_board,
            hop1zuo1of_upward: self.hop1zuo1of_upward.clone(),
            hop1zuo1of_downward: self.hop1zuo1of_downward.clone(),
        }
    }
}

/// The place of the first piece of the given colour and profession in the
/// hop1zuo1 of Upward, if it holds one.
fn position_upward(
    hop1zuo1: &Vec<NonTam2PieceUpward>,
    wanted: NonTam2PieceUpward,
) -> (index: Option<usize>)
    ensures
        match index {
            Some(i) => {
                &&& i < hop1zuo1.len()
                &&& hop1zuo1@.contains(wanted)
                &&& hop1zuo1@.index_of_first(wanted) == Some(i as int)
            },
            None => !hop1zuo1@.contains(wanted),
        },
{
    for i in 0..hop1zuo1.len()
        invariant
            forall|k: int| 0 <= k < i ==> hop1zuo1[k] != wanted,
    {
        if hop1zuo1[i] == wanted {
            proof {
                hop1zuo1@.index_of_first_ensures(wanted);
            }
            return Some(i);
        }
    }
    None
}

/// The place of the first piece of the given colour and profession in the
/// hop1zuo1 of Downward, if it holds one.
fn position_downward(
    hop1zuo1: &Vec<NonTam2PieceDownward>,
    wanted: NonTam2PieceDownward,
) -> (index: Option<usize>)
    ensures
        match index {
            Some(i) => {
                &&& i < hop1zuo1.len()
                &&& hop1zuo1@.contains(wanted)
                &&& hop1zuo1@.index_of_first(wanted) == Some(i as int)
            },
            None => !hop1zuo1@.contains(wanted),
        },
{
    for i in 0..hop1zuo1.len()
        invariant
            forall|k: int| 0 <= k < i ==> hop1zuo1[k] != wanted,
    {
        if hop1zuo1[i] == wanted {
            proof {
                hop1zuo1@.index_of_first_ensures(wanted);
            }
            return Some(i);
        }
    }
    None
}

impl Field {
    /// Adds a piece to the hop1zuo1 of a side; it comes last.
    pub fn insert_nontam_piece_into_hop1zuo1(&mut self, color: Color, prof: Profession, side: Side)
        ensures
            final(self)@ == old(self)@.with_piece_in_hop1zuo1(color, prof, side),
            final(self).current_board == old(self).current_board,
    {
        match side {
            Side::Upward => self.hop1zuo1of_upward.push(NonTam2PieceUpward { color, prof }),
            Side::Downward => self.hop1zuo1of_downward.push(NonTam2PieceDownward { color, prof }),
        }
    }

    /// Moves the piece on `src` to `dest` for the player `whose_turn`, and
    /// takes the piece that stood on `dest`, if any, into that player's
    /// hop1zuo1. The field itself stays as it is; the result is a new one.
    pub fn move_nontam_piece_from_src_to_dest_while_taking_opponent_piece_if_needed(
        &self,
        src: Coord,
        dest: Coord,
        whose_turn: Side,
    ) -> (result: Result<Field, MoveError>)
        requires
            on_board(square(src)),
            on_board(square(dest)),
        ensures
            match result {
                Ok(next) => self@.move_piece(square(src), square(dest), whose_turn) == Ok::<
                    FieldView,
                    MoveError,
                >(next@),
                Err(e) => self@.move_piece(square(src), square(dest), whose_turn) == Err::<
                    FieldView,
                    MoveError,
                >(e),
            },
    {
        let src_piece = match self.current_board.peek(src) {
            None => return Err(MoveError::EmptySource),
            Some(piece) => piece,
        };

        let side = match src_piece {
            Piece::Tam2 => return Err(MoveError::SourceIsNeutral),
            Piece::NonTam2Piece { side, .. } => side,
        };

        if whose_turn != side {
            return Err(MoveError::NotOwner);
        }

        let maybe_captured_piece = self.current_board.peek(dest);
        let mut new_self = self.clone();
        new_self.current_board.pop(src);
        new_self.current_board.put(dest, Some(src_piece));

        if let Some(captured_piece) = maybe_captured_piece {
            match captured_piece {
                Piece::Tam2 => return Err(MoveError::CannotCaptureNeutral),
                Piece::NonTam2Piece {
                    color: captured_piece_color,
                    prof: captured_piece_prof,
                    side: captured_piece_side,
                } => {
                    if captured_piece_side == whose_turn {
                        return Err(MoveError::CannotCaptureOwn);
                    }
                    new_self.insert_nontam_piece_into_hop1zuo1(
                        captured_piece_color,
                        captured_piece_prof,
                        whose_turn,
                    );
                },
            }
        }
        Ok(new_self)
    }

    /// Takes a piece of the given colour and profession from the hop1zuo1
    /// of `side` and sets it on `to`. Returns `None` where the hop1zuo1 holds
    /// no such piece or `to` is occupied. The field itself stays as it is.
    #[must_use]
    pub fn search_from_hop1zuo1_and_parachute_at(
        &self,
        color: Color,
        prof: Profession,
        side: Side,
        to: Coord,
    ) -> (result: Option<Field>)
        requires
            on_board(square(to)),
        ensures
            match result {
                Some(next) => self@.parachute(color, prof, side, square(to)) == Some(next@),
                None => self@.parachute(color, prof, side, square(to)) is None,
            },
    {
        match side {
            Side::Upward => {
                let mut new_self = self.clone();
                let index = position_upward(
                    &new_self.hop1zuo1of_upward,
                    NonTam2PieceUpward { color, prof },
                )?;
                new_self.hop1zuo1of_upward.remove(index);

                if self.current_board.peek(to).is_some() {
                    return None;
                }
                new_self.current_board.put(to, Some(Piece::NonTam2Piece { color, prof, side }));
                Some(new_self)
            },
            Side::Downward => {
                let mut new_self = self.clone();
                let index = position_downward(
                    &new_self.hop1zuo1of_downward,
                    NonTam2PieceDownward { color, prof },
                )?;
                new_self.hop1zuo1of_downward.remove(index);

                if self.current_board.peek(to).is_some() {
                    return None;
                }
                new_self.current_board.put(to, Some(Piece::NonTam2Piece { color, prof, side }));
                Some(new_self)
            },
        }
    }

    /// The board of the field.
    pub fn as_board(&self) -> (board: &Board)
        ensures
            *board == self.current_board,
    {
        &self.current_board
    }

    /// The board of the field, to be changed in place.
    pub fn as_board_mut(&mut self) -> (board: &mut Board)
        ensures
            *board == old(self).current_board,
            *final(self) == (Field { current_board: *final(board), ..*old(self) }),
    {
        &mut self.current_board
    }
}

/// A move, with its squares in relative terms.
#[derive(Clone, Copy, PartialEq, Eq, Hash, Debug)]
pub enum PureMove {
    /// A piece other than Tam2 moves from a square to another without stepping.
    NonTamMoveSrcDst {
        /// origin
        src: Coord,
        /// final destination
        dest: Coord,
        /// whether a water-entry ciurl is required
        is_water_entry_ciurl: bool,
    },
    /// A piece other than Tam2 moves from a square to another, steps on a
    /// piece on its way and goes on by a finite movement.
    NonTamMoveSrcStepDstFinite {
        /// origin
        src: Coord,
        /// via point
        step: Coord,
        /// destination
        dest: Coord,
        /// whether a water-entry ciurl is required
        is_water_entry_ciurl: bool,
    },
    /// A piece other than Tam2 moves from a square to another, steps on a
    /// piece on its way and tries to go on by an infinite movement in one
    /// direction.
    InfAfterStep {
        /// origin
        src: Coord,
        /// via point
        step: Coord,
        /// the square that the player plans to reach; how far the piece gets
        /// is decided by casting sticks
        planned_direction: Coord,
    },
    /// A piece other than Tam2 moves from a hop1zuo1 to a square.
    NonTamMoveFromHopZuo {
        /// colour
        color: Color,
        /// profession
        prof: Profession,
        /// destination
        dest: Coord,
    },
    /// Tam2 moves from a square to another without stepping.
    TamMoveNoStep {
        /// origin
        src: Coord,
        /// first destination
        first_dest: Coord,
        /// second destination
        second_dest: Coord,
    },
    /// Tam2 moves from a square to another and steps on a piece during the
    /// former half of its movement.
    TamMoveStepsDuringFormer {
        /// origin
        src: Coord,
        /// via point
        step: Coord,
        /// first destination
        first_dest: Coord,
        /// second destination
        second_dest: Coord,
    },
    /// Tam2 moves from a square to another and steps on a piece during the
    /// latter half of its movement.
    TamMoveStepsDuringLatter {
        /// origin
        src: Coord,
        /// via point
        step: Coord,
        /// first destination
        first_dest: Coord,
        /// second destination
        second_dest: Coord,
    },
}

/// The mark of a move that needs a water-entry ciurl; nothing for one that
/// needs none.
pub open spec fn water_entry_text(is_water_entry_ciurl: bool) -> Seq<char> {
    if is_water_entry_ciurl {
        seq!['水']
    } else {
        Seq::empty()
    }
}

impl PureMove {
    /// The move as text. A first destination of Tam2, which the standard
    /// notation leaves out, stands in square brackets of its own.
    pub open spec fn spec_serialize(self) -> Seq<char> {
        match self {
            PureMove::InfAfterStep { src, step, planned_direction } => spec_serialize_coord(
                square(src),
            ) + seq!['片'] + spec_serialize_coord(square(step)) + seq!['心']
                + spec_serialize_coord(square(planned_direction)),
            PureMove::NonTamMoveFromHopZuo { color, prof, dest } => color_text(color) + prof_text(
                prof,
            ) + spec_serialize_coord(square(dest)),
            PureMove::NonTamMoveSrcDst { src, dest, is_water_entry_ciurl } => spec_serialize_coord(
                square(src),
            ) + seq!['片'] + spec_serialize_coord(square(dest)) + water_entry_text(
                is_water_entry_ciurl,
            ),
            PureMove::NonTamMoveSrcStepDstFinite { src, dest, is_water_entry_ciurl, step } =>
                spec_serialize_coord(square(src)) + seq!['片'] + spec_serialize_coord(square(step))
                    + spec_serialize_coord(square(dest)) + water_entry_text(is_water_entry_ciurl),
            PureMove::TamMoveNoStep { src, first_dest, second_dest } => spec_serialize_coord(
                square(src),
            ) + seq!['皇', '['] + spec_serialize_coord(square(first_dest)) + seq![']']
                + spec_serialize_coord(square(second_dest)),
            PureMove::TamMoveStepsDuringFormer { src, first_dest, second_dest, step } =>
                spec_serialize_coord(square(src)) + seq!['皇'] + spec_serialize_coord(square(step))
                    + seq!['['] + spec_serialize_coord(square(first_dest)) + seq![']']
                    + spec_serialize_coord(square(second_dest)),
            PureMove::TamMoveStepsDuringLatter { src, first_dest, second_dest, step } =>
                spec_serialize_coord(square(src)) + seq!['皇', '['] + spec_serialize_coord(
                    square(first_dest),
                ) + seq![']'] + spec_serialize_coord(square(step)) + spec_serialize_coord(
                    square(second_dest),
                ),
        }
    }

    /// Serializes the move in textual form, as in `[0,4]片[1,3]心[1,2]`.
    #[must_use]
    pub fn serialize(self) -> (text: String)
        ensures
            text@ == self.spec_serialize(),
    {
        proof {
            reveal_strlit("片");
            reveal_strlit("心");
            reveal_strlit("水");
            reveal_strlit("");
            reveal_strlit("皇");
            reveal_strlit("皇[");
            reveal_strlit("[");
            reveal_strlit("]");
        }
        match self {
            PureMove::InfAfterStep { src, step, planned_direction } => {
                let mut text = serialize_coord(src);
                text.append("片");
                text.append(serialize_coord(step).as_str());
                text.append("心");
                text.append(serialize_coord(planned_direction).as_str());
                assert(text@ =~= self.spec_serialize());
                text
            },
            PureMove::NonTamMoveFromHopZuo { color, prof, dest } => {
                let mut text = String::from_str(serialize_color(color));
                text.append(serialize_prof(prof));
                text.append(serialize_coord(dest).as_str());
                assert(text@ =~= self.spec_serialize());
                text
            },
            PureMove::NonTamMoveSrcDst { src, dest, is_water_entry_ciurl } => {
                let mut text = serialize_coord(src);
                text.append("片");
                text.append(serialize_coord(dest).as_str());
                text.append(
                    if is_water_entry_ciurl {
                        "水"
                    } else {
                        ""
                    },
                );
                assert(text@ =~= self.spec_serialize());
                text
            },
            PureMove::NonTamMoveSrcStepDstFinite { src, dest, is_water_entry_ciurl, step } => {
                let mut text = serialize_coord(src);
                text.append("片");
                text.append(serialize_coord(step).as_str());
                text.append(serialize_coord(dest).as_str());
                text.append(
                    if is_water_entry_ciurl {
                        "水"
                    } else {
                        ""
                    },
                );
                assert(text@ =~= self.spec_serialize());
                text
            },
            PureMove::TamMoveNoStep { src, first_dest, second_dest } => {
                let mut text = serialize_coord(src);
                text.append("皇[");
                text.append(serialize_coord(first_dest).as_str());
                text.append("]");
                text.append(serialize_coord(second_dest).as_str());
                assert(text@ =~= self.spec_serialize());
                text
            },
            PureMove::TamMoveStepsDuringFormer { src, first_dest, second_dest, step } => {
                let mut text = serialize_coord(src);
                text.append("皇");
                text.append(serialize_coord(step).as_str());
                text.append("[");
                text.append(serialize_coord(first_dest).as_str());
                text.append("]");
                text.append(serialize_coord(second_dest).as_str());
                assert(text@ =~= self.spec_serialize());
                text
            },
            PureMove::TamMoveStepsDuringLatter { src, first_dest, second_dest, step } => {
                let mut text = serialize_coord(src);
                text.append("皇[");
                text.append(serialize_coord(first_dest).as_str());
                text.append("]");
                text.append(serialize_coord(step).as_str());
                text.append(serialize_coord(second_dest).as_str());
                assert(text@ =~= self.spec_serialize());
                text
            },
        }
    }
}

/// Whether all pieces of a map from squares to pieces stand on the 81
/// squares. The view of every `Board` is such a map.
pub open spec fn is_board(board: Map<(int, int), Piece>) -> bool {
    forall|c: (int, int)| board.contains_key(c) ==> on_board(c)
}

/// The squares of a board that hold Tam2.
pub open spec fn tam2_squares(board: Map<(int, int), Piece>) -> Set<(int, int)> {
    Set::new(|c: (int, int)| board.contains_key(c) && board[c] is Tam2)
}

/// Two boards that hold the same pieces on the same squares are the same
/// board.
pub proof fn lemma_view_tells_boards_apart(a: Board, b: Board)
    requires
        a@ == b@,
    ensures
        a == b,
{
    assert forall|i: int, j: int| 0 <= i < 9 && 0 <= j < 9 implies a.0[i][j] == b.0[i][j] by {
        assert(a@.get((i, j)) == b@.get((i, j)));
    }
    assert forall|i: int| 0 <= i < 9 implies a.0[i] == b.0[i] by {
        assert(a.0[i] =~= b.0[i]);
    }
    assert(a.0 =~= b.0);
}

/// A board holds finitely many pieces, at most one for each of the 81
/// squares.
pub proof fn lemma_board_is_finite(board: Map<(int, int), Piece>)
    requires
        is_board(board),
    ensures
        board.dom().finite(),
        board.dom().len() <= 81,
{
    let numbers = vstd::set_lib::set_int_range(0, 81);
    let square = |k: int| (k / 9, k % 9);
    let squares = numbers.map(square);
    vstd::set_lib::lemma_int_range(0, 81);
    vstd::set_lib::lemma_map_size_bound(numbers, squares, square);
    assert forall|c: (int, int)| board.dom().contains(c) implies squares.contains(c) by {
        assert(on_board(c));
        assert(numbers.contains(9 * c.0 + c.1));
        assert(square(9 * c.0 + c.1) == c);
    }
    vstd::set_lib::lemma_len_subset(board.dom(), squares);
}

/// Flipping a side twice gives the side again.
pub proof fn lemma_flip_is_involution(side: Side)
    ensures
        side.flip().flip() == side,
{
}

/// Rotating a piece twice gives the piece again.
pub proof fn lemma_rotate_piece_is_involution(piece: Piece)
    ensures
        piece.rotate().rotate() == piece,
        spec_rotate_piece_or_null(spec_rotate_piece_or_null(Some(piece))) == Some(piece),
{
}

/// Rotating a square of the board twice gives the square again.
pub proof fn lemma_rotate_coord_is_involution(c: (int, int))
    ensures
        spec_rotate_coord(spec_rotate_coord(c)) == c,
        on_board(c) == on_board(spec_rotate_coord(c)),
{
}

/// Rotating a board twice gives the board again.
pub proof fn lemma_rotate_board_is_involution(board: Map<(int, int), Piece>)
    requires
        is_board(board),
    ensures
        spec_rotate_board(spec_rotate_board(board)) == board,
        is_board(spec_rotate_board(board)),
{
    let twice = spec_rotate_board(spec_rotate_board(board));
    assert forall|c: (int, int)| #[trigger]
        twice.contains_key(c) == board.contains_key(c) && (board.contains_key(c) ==> twice[c]
            == board[c]) by {
        lemma_rotate_coord_is_involution(c);
        if board.contains_key(c) {
            lemma_rotate_piece_is_involution(board[c]);
        }
    }
    assert(twice =~= board);
}

/// The distance from a square to another is the distance back, and the
/// distance from a square to itself is 0.
pub proof fn lemma_distance_is_symmetric(a: (int, int), b: (int, int))
    ensures
        spec_distance(a, b) == spec_distance(b, a),
        spec_distance(a, a) == 0,
        spec_distance(a, b) >= 0,
        spec_distance(a, b) == 0 <==> a == b,
{
}

impl FieldView {
    /// The field after a run of attempts to move a piece, each a source, a
    /// destination and the player who moves. An attempt that is refused
    /// leaves the field as it is.
    pub open spec fn after_moves(self, moves: Seq<((int, int), (int, int), Side)>) -> FieldView
        decreases moves.len(),
    {
        if moves.len() == 0 {
            self
        } else {
            let before = self.after_moves(moves.drop_last());
            match before.move_piece(moves.last().0, moves.last().1, moves.last().2) {
                Ok(next) => next,
                Err(_) => before,
            }
        }
    }
}

/// A move that takes a piece leaves one piece less on the board and one more
/// in the hop1zuo1 of the player who moved: the colour and profession of the
/// piece that was taken, which come last. The other hop1zuo1 stays as it is.
pub proof fn lemma_capture_conservation(
    field: FieldView,
    src: (int, int),
    dest: (int, int),
    whose_turn: Side,
)
    requires
        is_board(field.current_board),
        field.move_piece(src, dest, whose_turn) is Ok,
        field.current_board.contains_key(dest),
    ensures
        ({
            let next = field.move_piece(src, dest, whose_turn)->Ok_0;
            &&& next.current_board.dom().len() == field.current_board.dom().len() - 1
            &&& next.current_board == field.current_board.remove(src).insert(
                dest,
                field.current_board[src],
            )
            &&& field.current_board[dest] matches Piece::NonTam2Piece { color, prof, side }
            &&& side != whose_turn
            &&& next == field.with_board(next.current_board).with_piece_in_hop1zuo1(
                color,
                prof,
                whose_turn,
            )
            &&& next.hop1zuo1of_upward.len() + next.hop1zuo1of_downward.len()
                == field.hop1zuo1of_upward.len() + field.hop1zuo1of_downward.len() + 1
        }),
{
    lemma_board_is_finite(field.current_board);
    let next = field.move_piece(src, dest, whose_turn)->Ok_0;
    assert(src != dest);
    assert(next.current_board.dom() =~= field.current_board.dom().remove(src));
}

/// A move onto an empty square leaves as many pieces on the board as there
/// were, and both hop1zuo1 as they were.
pub proof fn lemma_move_without_capture(
    field: FieldView,
    src: (int, int),
    dest: (int, int),
    whose_turn: Side,
)
    requires
        is_board(field.current_board),
        on_board(dest),
        field.move_piece(src, dest, whose_turn) is Ok,
        !field.current_board.contains_key(dest),
    ensures
        ({
            let next = field.move_piece(src, dest, whose_turn)->Ok_0;
            &&& next.current_board.dom().len() == field.current_board.dom().len()
            &&& next.current_board == field.current_board.remove(src).insert(
                dest,
                field.current_board[src],
            )
            &&& !next.current_board.contains_key(src)
            &&& next.current_board.get(dest) == field.current_board.get(src)
            &&& next.hop1zuo1of_upward == field.hop1zuo1of_upward
            &&& next.hop1zuo1of_downward == field.hop1zuo1of_downward
        }),
{
    lemma_board_is_finite(field.current_board);
    let next = field.move_piece(src, dest, whose_turn)->Ok_0;
    assert(next.current_board.dom() =~= field.current_board.dom().remove(src).insert(dest));
}

/// A player never takes a piece of their own: where a piece of the player
/// who moves stands on the destination, no move is made, and the reason
/// given is `CannotCaptureOwn` whenever the source holds a piece of that
/// player too.
pub proof fn lemma_no_self_capture(
    field: FieldView,
    src: (int, int),
    dest: (int, int),
    whose_turn: Side,
)
    requires
        field.current_board.get(dest) matches Some(Piece::NonTam2Piece { side, .. }) && side
            == whose_turn,
    ensures
        field.move_piece(src, dest, whose_turn) is Err,
        (field.current_board.get(src) matches Some(Piece::NonTam2Piece { side, .. }) && side
            == whose_turn) ==> field.move_piece(src, dest, whose_turn) == Err::<
            FieldView,
            MoveError,
        >(MoveError::CannotCaptureOwn),
{
}

/// A move neither sets Tam2 on the board nor takes it off nor moves it: the
/// squares that hold Tam2 after the move are those that held it before.
pub proof fn lemma_move_keeps_tam2(
    field: FieldView,
    src: (int, int),
    dest: (int, int),
    whose_turn: Side,
)
    requires
        field.move_piece(src, dest, whose_turn) is Ok,
    ensures
        tam2_squares(field.move_piece(src, dest, whose_turn)->Ok_0.current_board) == tam2_squares(
            field.current_board,
        ),
{
    let next = field.move_piece(src, dest, whose_turn)->Ok_0;
    assert(tam2_squares(next.current_board) =~= tam2_squares(field.current_board));
}

/// Whatever moves are tried, one after another, the squares that hold Tam2
/// stay the same: a board with exactly one Tam2 keeps exactly one.
pub proof fn lemma_moves_keep_tam2(field: FieldView, moves: Seq<((int, int), (int, int), Side)>)
    ensures
        tam2_squares(field.after_moves(moves).current_board) == tam2_squares(field.current_board),
        tam2_squares(field.current_board).len() == 1 ==> tam2_squares(
            field.after_moves(moves).current_board,
        ).len() == 1,
    decreases moves.len(),
{
    if moves.len() > 0 {
        lemma_moves_keep_tam2(field, moves.drop_last());
        let before = field.after_moves(moves.drop_last());
        if before.move_piece(moves.last().0, moves.last().1, moves.last().2) is Ok {
            lemma_move_keeps_tam2(before, moves.last().0, moves.last().1, moves.last().2);
        }
    }
}

/// Setting a piece from a hop1zuo1 on the board leaves one piece more on the
/// board and one less in the two hop1zuo1 together; the squares that hold
/// Tam2 stay as they are.
pub proof fn lemma_parachute_conservation(
    field: FieldView,
    color: Color,
    prof: Profession,
    side: Side,
    dest: (int, int),
)
    requires
        is_board(field.current_board),
        on_board(dest),
        field.parachute(color, prof, side, dest) is Some,
    ensures
        ({
            let next = field.parachute(color, prof, side, dest)->0;
            &&& next.current_board.dom().len() == field.current_board.dom().len() + 1
            &&& next.hop1zuo1of_upward.len() + next.hop1zuo1of_downward.len()
                == field.hop1zuo1of_upward.len() + field.hop1zuo1of_downward.len() - 1
            &&& side is Upward ==> next.hop1zuo1of_downward == field.hop1zuo1of_downward
            &&& side is Downward ==> next.hop1zuo1of_upward == field.hop1zuo1of_upward
            &&& tam2_squares(next.current_board) == tam2_squares(field.current_board)
        }),
{
    lemma_board_is_finite(field.current_board);
    let next = field.parachute(color, prof, side, dest)->0;
    field.hop1zuo1of_upward.index_of_first_ensures(NonTam2PieceUpward { color, prof });
    field.hop1zuo1of_downward.index_of_first_ensures(NonTam2PieceDownward { color, prof });
    assert(tam2_squares(next.current_board) =~= tam2_squares(field.current_board));
}

} // verus!

//! The perspective: fix which player looks at the board, and absolute and
//! relative terms can be turned into each other.

use crate::absolute;
use crate::fundamental::{AbsoluteSide, ColorAndProf};
use crate::relative;
use crate::relative::{NonTam2PieceDownward, NonTam2PieceUpward};
use vstd::prelude::*;

verus! {

/// Which player looks at the board.
#[derive(Copy, Clone, Debug, Eq, PartialEq, Hash, Structural)]
pub enum Perspective {
    /// IA is the lowermost row; the player who started on it has the pieces
    /// that point upward (you).
    IaIsDownAndPointsUpward,
    /// IA is the uppermost row; the player who started on it has the pieces
    /// that point downward (the opponent).
    IaIsUpAndPointsDownward,
}

impl Perspective {
    /// Whether IA is the lowermost row.
    pub open spec fn spec_ia_is_down(self) -> bool {
        self is IaIsDownAndPointsUpward
    }

    /// The perspective of the other player.
    pub open spec fn other(self) -> Perspective {
        match self {
            Perspective::IaIsDownAndPointsUpward => Perspective::IaIsUpAndPointsDownward,
            Perspective::IaIsUpAndPointsDownward => Perspective::IaIsDownAndPointsUpward,
        }
    }

    /// Checks whether IA is the lowermost row.
    #[must_use]
    #[verifier::when_used_as_spec(spec_ia_is_down)]
    pub fn ia_is_down(self) -> (r: bool)
        ensures
            r == self.spec_ia_is_down(),
    {
        matches!(self, Perspective::IaIsDownAndPointsUpward)
    }
}

/// The absolute side that a relative side is, for the one who looks.
pub open spec fn spec_to_absolute_side(side: relative::Side, p: Perspective) -> AbsoluteSide {
    if (side is Upward) == p.ia_is_down() {
        AbsoluteSide::IASide
    } else {
        AbsoluteSide::ASide
    }
}

/// The relative side that an absolute side is, for the one who looks.
pub open spec fn spec_to_relative_side(side: AbsoluteSide, p: Perspective) -> relative::Side {
    if (side is IASide) == p.ia_is_down() {
        relative::Side::Upward
    } else {
        relative::Side::Downward
    }
}

/// Converts `relative::Side` into `AbsoluteSide`.
#[must_use]
pub fn to_absolute_side(side: relative::Side, p: Perspective) -> (r: AbsoluteSide)
    ensures
        r == spec_to_absolute_side(side, p),
{
    match (side, p) {
        (relative::Side::Upward, Perspective::IaIsDownAndPointsUpward)
        | (relative::Side::Downward, Perspective::IaIsUpAndPointsDownward) => AbsoluteSide::IASide,
        (relative::Side::Downward, Perspective::IaIsDownAndPointsUpward)
        | (relative::Side::Upward, Perspective::IaIsUpAndPointsDownward) => AbsoluteSide::ASide,
    }
}

/// Converts `AbsoluteSide` into `relative::Side`.
#[must_use]
pub fn to_relative_side(side: AbsoluteSide, p: Perspective) -> (r: relative::Side)
    ensures
        r == spec_to_relative_side(side, p),
{
    match (side, p) {
        (AbsoluteSide::IASide, Perspective::IaIsDownAndPointsUpward)
        | (AbsoluteSide::ASide, Perspective::IaIsUpAndPointsDownward) => relative::Side::Upward,
        (AbsoluteSide::IASide, Perspective::IaIsUpAndPointsDownward)
        | (AbsoluteSide::ASide, Perspective::IaIsDownAndPointsUpward) => relative::Side::Downward,
    }
}

/// The relative piece that an absolute piece is, for the one who looks.
pub open spec fn spec_to_relative_piece(piece: absolute::Piece, p: Perspective) -> relative::Piece {
    match piece {
        absolute::Piece::Tam2 => relative::Piece::Tam2,
        absolute::Piece::NonTam2Piece { prof, color, side } => relative::Piece::NonTam2Piece {
            prof,
            color,
            side: spec_to_relative_side(side, p),
        },
    }
}

/// The absolute piece that a relative piece is, for the one who looks.
pub open spec fn spec_to_absolute_piece(piece: relative::Piece, p: Perspective) -> absolute::Piece {
    match piece {
        relative::Piece::Tam2 => absolute::Piece::Tam2,
        relative::Piece::NonTam2Piece { prof, color, side } => absolute::Piece::NonTam2Piece {
            prof,
            color,
            side: spec_to_absolute_side(side, p),
        },
    }
}

/// Converts `absolute::Piece` into `relative::Piece`.
#[must_use]
pub fn to_relative_piece(piece: absolute::Piece, p: Perspective) -> (r: relative::Piece)
    ensures
        r == spec_to_relative_piece(piece, p),
{
    match piece {
        absolute::Piece::Tam2 => relative::Piece::Tam2,
        absolute::Piece::NonTam2Piece { prof, color, side } => relative::Piece::NonTam2Piece {
            prof,
            color,
            side: to_relative_side(side, p),
        },
    }
}

/// Converts `relative::Piece` into `absolute::Piece`.
#[must_use]
pub fn to_absolute_piece(piece: relative::Piece, p: Perspective) -> (r: absolute::Piece)
    ensures
        r == spec_to_absolute_piece(piece, p),
{
    match piece {
        relative::Piece::Tam2 => absolute::Piece::Tam2,
        relative::Piece::NonTam2Piece { prof, color, side } => absolute::Piece::NonTam2Piece {
            prof,
            color,
            side: to_absolute_side(side, p),
        },
    }
}

/// The absolute square that a relative square is, for the one who looks: row
/// and column count from A and K where IA is down, from IA and P where it is up.
pub open spec fn spec_to_absolute_coord(coord: (int, int), p: Perspective) -> absolute::Coord {
    if p.ia_is_down() {
        absolute::Coord(absolute::Row::at(coord.0), absolute::Column::at(coord.1))
    } else {
        absolute::Coord(absolute::Row::at(8 - coord.0), absolute::Column::at(8 - coord.1))
    }
}

/// The relative square that an absolute square is, for the one who looks.
pub open spec fn spec_to_relative_coord(coord: absolute::Coord, p: Perspective) -> (int, int) {
    if p.ia_is_down() {
        (coord.0.index(), coord.1.index())
    } else {
        (8 - coord.0.index(), 8 - coord.1.index())
    }
}

/// Converts `relative::Coord` into `absolute::Coord`.
#[must_use]
pub fn to_absolute_coord(coord: relative::Coord, p: Perspective) -> (r: absolute::Coord)
    requires
        relative::on_board(relative::square(coord)),
    ensures
        r == spec_to_absolute_coord(relative::square(coord), p),
{
    let row: usize = coord[0];
    let col: usize = coord[1];

    let columns: [absolute::Column; 9] = [
        absolute::Column::K,
        absolute::Column::L,
        absolute::Column::N,
        absolute::Column::T,
        absolute::Column::Z,
        absolute::Column::X,
        absolute::Column::C,
        absolute::Column::M,
        absolute::Column::P,
    ];

    let rows: [absolute::Row; 9] = [
        absolute::Row::A,
        absolute::Row::E,
        absolute::Row::I,
        absolute::Row::U,
        absolute::Row::O,
        absolute::Row::Y,
        absolute::Row::AI,
        absolute::Row::AU,
        absolute::Row::IA,
    ];

    absolute::Coord(
        rows[if p.ia_is_down() {
            row
        } else {
            8 - row
        }],
        columns[if p.ia_is_down() {
            col
        } else {
            8 - col
        }],
    )
}

/// Converts `absolute::Coord` into `relative::Coord`.
#[must_use]
pub fn to_relative_coord(coord: absolute::Coord, p: Perspective) -> (r: relative::Coord)
    ensures
        relative::square(r) == spec_to_relative_coord(coord, p),
        relative::on_board(relative::square(r)),
{
    let absolute::Coord(row, col) = coord;

    let columns_col: usize = match col {
        absolute::Column::K => 0,
        absolute::Column::L => 1,
        absolute::Column::N => 2,
        absolute::Column::T => 3,
        absolute::Column::Z => 4,
        absolute::Column::X => 5,
        absolute::Column::C => 6,
        absolute::Column::M => 7,
        absolute::Column::P => 8,
    };

    let rows_row: usize = match row {
        absolute::Row::A => 0,
        absolute::Row::E => 1,
        absolute::Row::I => 2,
        absolute::Row::U => 3,
        absolute::Row::O => 4,
        absolute::Row::Y => 5,
        absolute::Row::AI => 6,
        absolute::Row::AU => 7,
        absolute::Row::IA => 8,
    };

    if p.ia_is_down() {
        [rows_row, columns_col]
    } else {
        [8 - rows_row, 8 - columns_col]
    }
}

/// The absolute board that a relative board is, for the one who looks:
/// every piece on its square, both in absolute terms.
pub open spec fn spec_to_absolute_board(
    board: Map<(int, int), relative::Piece>,
    p: Perspective,
) -> Map<absolute::Coord, absolute::Piece> {
    Map::new(
        |c: absolute::Coord| board.contains_key(spec_to_relative_coord(c, p)),
        |c: absolute::Coord| spec_to_absolute_piece(board[spec_to_relative_coord(c, p)], p),
    )
}

/// The relative board that an absolute board is, for the one who looks:
/// every piece on its square, both in relative terms.
pub open spec fn spec_to_relative_board(
    board: Map<absolute::Coord, absolute::Piece>,
    p: Perspective,
) -> Map<(int, int), relative::Piece> {
    Map::new(
        |c: (int, int)| relative::on_board(c) && board.contains_key(spec_to_absolute_coord(c, p)),
        |c: (int, int)| spec_to_relative_piece(board[spec_to_absolute_coord(c, p)], p),
    )
}

/// Converts `relative::Board` into `absolute::Board`.
#[must_use]
pub fn to_absolute_board(board: &relative::Board, p: Perspective) -> (r: absolute::Board)
    ensures
        r@ == spec_to_absolute_board(board@, p),
{
    let mut ans = absolute::Board::new();
    for i in 0..9usize
        invariant
            ans@ == Map::new(
                |c: absolute::Coord|
                    spec_to_relative_coord(c, p).0 < i && board@.contains_key(
                        spec_to_relative_coord(c, p),
                    ),
                |c: absolute::Coord|
                    spec_to_absolute_piece(board@[spec_to_relative_coord(c, p)], p),
            ),
    {
        for j in 0..9usize
            invariant
                i < 9,
                ans@ == Map::new(
                    |c: absolute::Coord|
                        (spec_to_relative_coord(c, p).0 < i || (spec_to_relative_coord(c, p).0 == i
                            && spec_to_relative_coord(c, p).1 < j)) && board@.contains_key(
                            spec_to_relative_coord(c, p),
                        ),
                    |c: absolute::Coord|
                        spec_to_absolute_piece(board@[spec_to_relative_coord(c, p)], p),
                ),
        {
            if let Some(piece) = board.0[i][j] {
                ans.put(to_absolute_coord([i, j], p), Some(to_absolute_piece(piece, p)));
            }
        }
    }
    ans
}

/// Converts `absolute::Board` into `relative::Board`.
#[must_use]
pub fn to_relative_board(board: &absolute::Board, p: Perspective) -> (r: relative::Board)
    ensures
        r@ == spec_to_relative_board(board@, p),
{
    let mut ans: [relative::SingleRow; 9] = [
        [None, None, None, None, None, None, None, None, None],
        [None, None, None, None, None, None, None, None, None],
        [None, None, None, None, None, None, None, None, None],
        [None, None, None, None, None, None, None, None, None],
        [None, None, None, None, None, None, None, None, None],
        [None, None, None, None, None, None, None, None, None],
        [None, None, None, None, None, None, None, None, None],
        [None, None, None, None, None, None, None, None, None],
        [None, None, None, None, None, None, None, None, None],
    ];

    for i in 0..9usize
        invariant
            forall|k: int, l: int|
                0 <= k < 9 && 0 <= l < 9 ==> #[trigger] ans[k][l] == (if k < i {
                    spec_to_relative_square(board@, (k, l), p)
                } else {
                    None
                }),
    {
        for j in 0..9usize
            invariant
                i < 9,
                forall|k: int, l: int|
                    0 <= k < 9 && 0 <= l < 9 ==> #[trigger] ans[k][l] == (if k < i || (k == i && l
                        < j) {
                        spec_to_relative_square(board@, (k, l), p)
                    } else {
                        None
                    }),
        {
            if let Some(piece) = board.peek(to_absolute_coord([i, j], p)) {
                ans[i][j] = Some(to_relative_piece(piece, p));
            }
        }
    }
    let r = relative::Board(ans);
    assert(r@ =~= spec_to_relative_board(board@, p));
    r
}

/// What stands on a relative square of an absolute board, in relative terms.
pub open spec fn spec_to_relative_square(
    board: Map<absolute::Coord, absolute::Piece>,
    c: (int, int),
    p: Perspective,
) -> Option<relative::Piece> {
    match board.get(spec_to_absolute_coord(c, p)) {
        Some(piece) => Some(spec_to_relative_piece(piece, p)),
        None => None,
    }
}

/// A piece of a hop1zuo1 of Upward, without its side.
pub open spec fn spec_upward_to_absolute(piece: NonTam2PieceUpward) -> ColorAndProf {
    ColorAndProf { color: piece.color, prof: piece.prof }
}

/// A piece of a hop1zuo1 of Downward, without its side.
pub open spec fn spec_downward_to_absolute(piece: NonTam2PieceDownward) -> ColorAndProf {
    ColorAndProf { color: piece.color, prof: piece.prof }
}

/// A piece of a hop1zuo1, as one of Upward.
pub open spec fn spec_absolute_to_upward(piece: ColorAndProf) -> NonTam2PieceUpward {
    NonTam2PieceUpward { color: piece.color, prof: piece.prof }
}

/// A piece of a hop1zuo1, as one of Downward.
pub open spec fn spec_absolute_to_downward(piece: ColorAndProf) -> NonTam2PieceDownward {
    NonTam2PieceDownward { color: piece.color, prof: piece.prof }
}

/// The absolute field that a relative field is, for the one who looks: the
/// board in absolute terms, and each hop1zuo1, piece by piece in its order,
/// with the side that Upward or Downward is.
pub open spec fn spec_to_absolute_field(
    field: relative::FieldView,
    p: Perspective,
) -> absolute::FieldView {
    let upward = field.hop1zuo1of_upward.map_values(
        |piece: NonTam2PieceUpward| spec_upward_to_absolute(piece),
    );
    let downward = field.hop1zuo1of_downward.map_values(
        |piece: NonTam2PieceDownward| spec_downward_to_absolute(piece),
    );
    absolute::FieldView {
        board: spec_to_absolute_board(field.current_board, p),
        ia_side_hop1zuo1: if p.ia_is_down() {
            upward
        } else {
            downward
        },
        a_side_hop1zuo1: if p.ia_is_down() {
            downward
        } else {
            upward
        },
    }
}

/// The relative field that an absolute field is, for the one who looks: the
/// board in relative terms, and each hop1zuo1, piece by piece in its order,
/// with the side that ASide or IASide is.
pub open spec fn spec_to_relative_field(
    field: absolute::FieldView,
    p: Perspective,
) -> relative::FieldView {
    let upward = if p.ia_is_down() {
        field.ia_side_hop1zuo1
    } else {
        field.a_side_hop1zuo1
    };
    let downward = if p.ia_is_down() {
        field.a_side_hop1zuo1
    } else {
        field.ia_side_hop1zuo1
    };
    relative::FieldView {
        current_board: spec_to_relative_board(field.board, p),
        hop1zuo1of_upward: upward.map_values(|piece: ColorAndProf| spec_absolute_to_upward(piece)),
        hop1zuo1of_downward: downward.map_values(
            |piece: ColorAndProf| spec_absolute_to_downward(piece),
        ),
    }
}

/// Takes the side off each piece of a hop1zuo1 of Upward.
fn upward_to_absolute(hop1zuo1: &Vec<NonTam2PieceUpward>) -> (r: Vec<ColorAndProf>)
    ensures
        r@ == hop1zuo1@.map_values(|piece: NonTam2PieceUpward| spec_upward_to_absolute(piece)),
{
    let mut ans: Vec<ColorAndProf> = Vec::new();
    for i in 0..hop1zuo1.len()
        invariant
            ans.len() == i,
            forall|k: int| 0 <= k < i ==> ans[k] == spec_upward_to_absolute(hop1zuo1[k]),
    {
        let NonTam2PieceUpward { color, prof } = hop1zuo1[i];
        ans.push(ColorAndProf { color, prof });
    }
    assert(ans@ =~= hop1zuo1@.map_values(
        |piece: NonTam2PieceUpward| spec_upward_to_absolute(piece),
    ));
    ans
}

/// Takes the side off each piece of a hop1zuo1 of Downward.
fn downward_to_absolute(hop1zuo1: &Vec<NonTam2PieceDownward>) -> (r: Vec<ColorAndProf>)
    ensures
        r@ == hop1zuo1@.map_values(|piece: NonTam2PieceDownward| spec_downward_to_absolute(piece)),
{
    let mut ans: Vec<ColorAndProf> = Vec::new();
    for i in 0..hop1zuo1.len()
        invariant
            ans.len() == i,
            forall|k: int| 0 <= k < i ==> ans[k] == spec_downward_to_absolute(hop1zuo1[k]),
    {
        let NonTam2PieceDownward { color, prof } = hop1zuo1[i];
        ans.push(ColorAndProf { color, prof });
    }
    assert(ans@ =~= hop1zuo1@.map_values(
        |piece: NonTam2PieceDownward| spec_downward_to_absolute(piece),
    ));
    ans
}

/// Makes each piece of a hop1zuo1 one of Upward.
fn absolute_to_upward(hop1zuo1: &Vec<ColorAndProf>) -> (r: Vec<NonTam2PieceUpward>)
    ensures
        r@ == hop1zuo1@.map_values(|piece: ColorAndProf| spec_absolute_to_upward(piece)),
{
    let mut ans: Vec<NonTam2PieceUpward> = Vec::new();
    for i in 0..hop1zuo1.len()
        invariant
            ans.len() == i,
            forall|k: int| 0 <= k < i ==> ans[k] == spec_absolute_to_upward(hop1zuo1[k]),
    {
        let ColorAndProf { color, prof } = hop1zuo1[i];
        ans.push(NonTam2PieceUpward { color, prof });
    }
    assert(ans@ =~= hop1zuo1@.map_values(|piece: ColorAndProf| spec_absolute_to_upward(piece)));
    ans
}

/// Makes each piece of a hop1zuo1 one of Downward.
fn absolute_to_downward(hop1zuo1: &Vec<ColorAndProf>) -> (r: Vec<NonTam2PieceDownward>)
    ensures
        r@ == hop1zuo1@.map_values(|piece: ColorAndProf| spec_absolute_to_downward(piece)),
{
    let mut ans: Vec<NonTam2PieceDownward> = Vec::new();
    for i in 0..hop1zuo1.len()
        invariant
            ans.len() == i,
            forall|k: int| 0 <= k < i ==> ans[k] == spec_absolute_to_downward(hop1zuo1[k]),
    {
        let ColorAndProf { color, prof } = hop1zuo1[i];
        ans.push(NonTam2PieceDownward { color, prof });
    }
    assert(ans@ =~= hop1zuo1@.map_values(|piece: ColorAndProf| spec_absolute_to_downward(piece)));
    ans
}

/// Converts `relative::Field` into `absolute::Field`.
#[must_use]
pub fn to_absolute_field(field: relative::Field, p: Perspective) -> (r: absolute::Field)
    ensures
        r@ == spec_to_absolute_field(field@, p),
{
    let relative::Field { hop1zuo1of_downward, hop1zuo1of_upward, current_board } = field;
    absolute::Field {
        board: to_absolute_board(&current_board, p),
        ia_side_hop1zuo1: match p {
            Perspective::IaIsDownAndPointsUpward => upward_to_absolute(&hop1zuo1of_upward),
            Perspective::IaIsUpAndPointsDownward => downward_to_absolute(&hop1zuo1of_downward),
        },
        a_side_hop1zuo1: match p {
            Perspective::IaIsDownAndPointsUpward => downward_to_absolute(&hop1zuo1of_downward),
            Perspective::IaIsUpAndPointsDownward => upward_to_absolute(&hop1zuo1of_upward),
        },
    }
}

/// Converts `absolute::Field` into `relative::Field`.
#[must_use]
pub fn to_relative_field(field: absolute::Field, p: Perspective) -> (r: relative::Field)
    ensures
        r@ == spec_to_relative_field(field@, p),
{
    let absolute::Field { board, ia_side_hop1zuo1, a_side_hop1zuo1 } = field;

    relative::Field {
        hop1zuo1of_downward: absolute_to_downward(
            match p {
                Perspective::IaIsUpAndPointsDownward => &ia_side_hop1zuo1,
                Perspective::IaIsDownAndPointsUpward => &a_side_hop1zuo1,
            },
        ),
        hop1zuo1of_upward: absolute_to_upward(
            match p {
                Perspective::IaIsUpAndPointsDownward => &a_side_hop1zuo1,
                Perspective::IaIsDownAndPointsUpward => &ia_side_hop1zuo1,
            },
        ),
        current_board: to_relative_board(&board, p),
    }
}

/// Turning an absolute square into a relative one and back gives the square
/// again, whichever player looks.
pub proof fn lemma_coord_absolute_round_trip(c: absolute::Coord, p: Perspective)
    ensures
        relative::on_board(spec_to_relative_coord(c, p)),
        spec_to_absolute_coord(spec_to_relative_coord(c, p), p) == c,
        spec_to_relative_coord(c, p.other()) == relative::spec_rotate_coord(
            spec_to_relative_coord(c, p),
        ),
{
}

/// Turning a relative square of the board into an absolute one and back gives
/// the square again, whichever player looks.
pub proof fn lemma_coord_relative_round_trip(c: (int, int), p: Perspective)
    requires
        relative::on_board(c),
    ensures
        spec_to_relative_coord(spec_to_absolute_coord(c, p), p) == c,
{
}

/// Turning an absolute side into a relative one and back gives the side
/// again, whichever player looks; the other player sees it as the other side.
pub proof fn lemma_side_absolute_round_trip(side: AbsoluteSide, p: Perspective)
    ensures
        spec_to_absolute_side(spec_to_relative_side(side, p), p) == side,
        spec_to_relative_side(side, p.other()) == spec_to_relative_side(side, p).flip(),
{
}

/// Turning a relative side into an absolute one and back gives the side
/// again, whichever player looks; for the other player the other side is
/// the same absolute side.
pub proof fn lemma_side_relative_round_trip(side: relative::Side, p: Perspective)
    ensures
        spec_to_relative_side(spec_to_absolute_side(side, p), p) == side,
        spec_to_absolute_side(side.flip(), p.other()) == spec_to_absolute_side(side, p),
{
}

/// Turning an absolute piece into a relative one and back gives the piece
/// again, whichever player looks; the other player sees it rotated.
pub proof fn lemma_piece_absolute_round_trip(piece: absolute::Piece, p: Perspective)
    ensures
        spec_to_absolute_piece(spec_to_relative_piece(piece, p), p) == piece,
        spec_to_relative_piece(piece, p.other()) == spec_to_relative_piece(piece, p).rotate(),
{
}

/// Turning a relative piece into an absolute one and back gives the piece
/// again, whichever player looks.
pub proof fn lemma_piece_relative_round_trip(piece: relative::Piece, p: Perspective)
    ensures
        spec_to_relative_piece(spec_to_absolute_piece(piece, p), p) == piece,
{
}

/// Turning an absolute board into a relative one and back gives the board
/// again.
pub proof fn lemma_board_absolute_round_trip(
    board: Map<absolute::Coord, absolute::Piece>,
    p: Perspective,
)
    ensures
        spec_to_absolute_board(spec_to_relative_board(board, p), p) == board,
{
    let back = spec_to_absolute_board(spec_to_relative_board(board, p), p);
    assert forall|c: absolute::Coord| #[trigger]
        back.contains_key(c) == board.contains_key(c) && (board.contains_key(c) ==> back[c]
            == board[c]) by {
        lemma_coord_absolute_round_trip(c, p);
        if board.contains_key(c) {
            lemma_piece_absolute_round_trip(board[c], p);
        }
    }
    assert(back =~= board);
}

/// Turning a relative board into an absolute one and back gives the board
/// again, where all its pieces stand on the 81 squares.
pub proof fn lemma_board_relative_round_trip(
    board: Map<(int, int), relative::Piece>,
    p: Perspective,
)
    requires
        forall|c: (int, int)| board.contains_key(c) ==> relative::on_board(c),
    ensures
        spec_to_relative_board(spec_to_absolute_board(board, p), p) == board,
{
    let back = spec_to_relative_board(spec_to_absolute_board(board, p), p);
    assert forall|c: (int, int)| #[trigger]
        back.contains_key(c) == board.contains_key(c) && (board.contains_key(c) ==> back[c]
            == board[c]) by {
        if relative::on_board(c) {
            lemma_coord_relative_round_trip(c, p);
            if board.contains_key(c) {
                lemma_piece_relative_round_trip(board[c], p);
            }
        }
    }
    assert(back =~= board);
}

/// Turning an absolute field into a relative one and back gives the field
/// again.
pub proof fn lemma_field_absolute_round_trip(field: absolute::FieldView, p: Perspective)
    ensures
        spec_to_absolute_field(spec_to_relative_field(field, p), p) == field,
{
    lemma_board_absolute_round_trip(field.board, p);
    let back = spec_to_absolute_field(spec_to_relative_field(field, p), p);
    assert(back.a_side_hop1zuo1 =~= field.a_side_hop1zuo1);
    assert(back.ia_side_hop1zuo1 =~= field.ia_side_hop1zuo1);
}

/// Turning a relative field into an absolute one and back gives the field
/// again, where all its pieces stand on the 81 squares.
pub proof fn lemma_field_relative_round_trip(field: relative::FieldView, p: Perspective)
    requires
        forall|c: (int, int)| field.current_board.contains_key(c) ==> relative::on_board(c),
    ensures
        spec_to_relative_field(spec_to_absolute_field(field, p), p) == field,
{
    lemma_board_relative_round_trip(field.current_board, p);
    let back = spec_to_relative_field(spec_to_absolute_field(field, p), p);
    assert(back.hop1zuo1of_upward =~= field.hop1zuo1of_upward);
    assert(back.hop1zuo1of_downward =~= field.hop1zuo1of_downward);
}

/// A board in relative terms has all its pieces on the 81 squares.
pub proof fn lemma_relative_board_is_board(
    board: Map<absolute::Coord, absolute::Piece>,
    p: Perspective,
)
    ensures
        relative::is_board(spec_to_relative_board(board, p)),
{
}

/// What one player sees is what the other player sees, rotated.
pub proof fn lemma_other_perspective_rotates(
    board: Map<absolute::Coord, absolute::Piece>,
    p: Perspective,
)
    ensures
        spec_to_relative_board(board, p.other()) == relative::spec_rotate_board(
            spec_to_relative_board(board, p),
        ),
{
    let other = spec_to_relative_board(board, p.other());
    let rotated = relative::spec_rotate_board(spec_to_relative_board(board, p));
    assert forall|c: (int, int)| #[trigger]
        other.contains_key(c) == rotated.contains_key(c) && (other.contains_key(c) ==> other[c]
            == rotated[c]) by {
        if relative::on_board(c) {
            assert(spec_to_absolute_coord(c, p.other()) == spec_to_absolute_coord(
                relative::spec_rotate_coord(c),
                p,
            ));
            if other.contains_key(c) {
                lemma_piece_absolute_round_trip(board[spec_to_absolute_coord(c, p.other())], p);
            }
        }
    }
    assert(other =~= rotated);
}

/// A move of a piece is the same move in absolute and in relative terms:
/// it is refused for the same reason or it leads to the same field.
pub proof fn lemma_move_is_the_same_for_both(
    field: absolute::FieldView,
    src: absolute::Coord,
    dest: absolute::Coord,
    whose_turn: AbsoluteSide,
    p: Perspective,
)
    ensures
        spec_to_relative_field(field, p).move_piece(
            spec_to_relative_coord(src, p),
            spec_to_relative_coord(dest, p),
            spec_to_relative_side(whose_turn, p),
        ) == (match field.move_piece(src, dest, whose_turn) {
            Ok(next) => Ok(spec_to_relative_field(next, p)),
            Err(e) => Err(e),
        }),
{
    let seen = spec_to_relative_field(field, p);
    let seen_src = spec_to_relative_coord(src, p);
    let seen_dest = spec_to_relative_coord(dest, p);
    let seen_turn = spec_to_relative_side(whose_turn, p);
    lemma_coord_absolute_round_trip(src, p);
    lemma_coord_absolute_round_trip(dest, p);
    assert(seen.current_board.get(seen_src) == spec_to_relative_square(field.board, seen_src, p));
    assert(seen.current_board.get(seen_dest) == spec_to_relative_square(field.board, seen_dest, p));
    if let Ok(next) = field.move_piece(src, dest, whose_turn) {
        let piece = field.board[src];
        let moved = field.board.remove(src).insert(dest, piece);
        let seen_moved = seen.current_board.remove(seen_src).insert(
            seen_dest,
            spec_to_relative_piece(piece, p),
        );
        let seen_after = spec_to_relative_board(moved, p);
        assert forall|c: (int, int)| #[trigger]
            seen_after.contains_key(c) == seen_moved.contains_key(c) && (seen_moved.contains_key(c)
                ==> seen_after[c] == seen_moved[c]) by {
            if relative::on_board(c) {
                lemma_coord_relative_round_trip(c, p);
            }
        }
        assert(seen_after =~= seen_moved);
        let seen_next = seen.move_piece(seen_src, seen_dest, seen_turn)->Ok_0;
        assert(seen_next.hop1zuo1of_upward =~= spec_to_relative_field(next, p).hop1zuo1of_upward);
        assert(seen_next.hop1zuo1of_downward =~= spec_to_relative_field(
            next,
            p,
        ).hop1zuo1of_downward);
    }
}

/// Setting a piece from a hop1zuo1 on the board is the same in absolute and
/// in relative terms: it is refused in both or it leads to the same field.
pub proof fn lemma_parachute_is_the_same_for_both(
    field: absolute::FieldView,
    color: crate::fundamental::Color,
    prof: crate::fundamental::Profession,
    side: AbsoluteSide,
    dest: absolute::Coord,
    p: Perspective,
)
    ensures
        spec_to_relative_field(field, p).parachute(
            color,
            prof,
            spec_to_relative_side(side, p),
            spec_to_relative_coord(dest, p),
        ) == (match field.parachute(color, prof, side, dest) {
            Some(next) => Some(spec_to_relative_field(next, p)),
            None => None,
        }),
{
    let seen = spec_to_relative_field(field, p);
    let seen_dest = spec_to_relative_coord(dest, p);
    let seen_side = spec_to_relative_side(side, p);
    let wanted = ColorAndProf { color, prof };
    let hand = field.hop1zuo1_of(side);
    lemma_coord_absolute_round_trip(dest, p);
    lemma_first_place_after_renaming(hand, wanted);
    assert(seen.has_in_hop1zuo1(color, prof, seen_side) == hand.contains(wanted)) by {
        if hand.contains(wanted) {
            let i = choose|i: int| 0 <= i < hand.len() && hand[i] == wanted;
            if seen_side is Upward {
                assert(seen.hop1zuo1of_upward[i] == spec_absolute_to_upward(wanted));
            } else {
                assert(seen.hop1zuo1of_downward[i] == spec_absolute_to_downward(wanted));
            }
        }
        if seen.has_in_hop1zuo1(color, prof, seen_side) {
            if seen_side is Upward {
                let i = choose|i: int|
                    0 <= i < seen.hop1zuo1of_upward.len() && seen.hop1zuo1of_upward[i]
                        == spec_absolute_to_upward(wanted);
                assert(hand[i] == wanted);
            } else {
                let i = choose|i: int|
                    0 <= i < seen.hop1zuo1of_downward.len() && seen.hop1zuo1of_downward[i]
                        == spec_absolute_to_downward(wanted);
                assert(hand[i] == wanted);
            }
        }
    }
    if let Some(next) = field.parachute(color, prof, side, dest) {
        let piece = absolute::Piece::NonTam2Piece { color, prof, side };
        let set = field.board.insert(dest, piece);
        let seen_set = seen.current_board.insert(seen_dest, spec_to_relative_piece(piece, p));
        let seen_after = spec_to_relative_board(set, p);
        assert forall|c: (int, int)| #[trigger]
            seen_after.contains_key(c) == seen_set.contains_key(c) && (seen_set.contains_key(c)
                ==> seen_after[c] == seen_set[c]) by {
            if relative::on_board(c) {
                lemma_coord_relative_round_trip(c, p);
            }
        }
        assert(seen_after =~= seen_set);
        let seen_next = seen.parachute(color, prof, seen_side, seen_dest)->0;
        hand.index_of_first_ensures(wanted);
        assert(seen_next.hop1zuo1of_upward =~= spec_to_relative_field(next, p).hop1zuo1of_upward);
        assert(seen_next.hop1zuo1of_downward =~= spec_to_relative_field(
            next,
            p,
        ).hop1zuo1of_downward);
    }
}

/// The first place of a piece in a hop1zuo1 is its first place in the same
/// hop1zuo1 in relative terms, be it that of Upward or that of Downward.
proof fn lemma_first_place_after_renaming(hop1zuo1: Seq<ColorAndProf>, wanted: ColorAndProf)
    ensures
        hop1zuo1.map_values(|piece: ColorAndProf| spec_absolute_to_upward(piece)).index_of_first(
            spec_absolute_to_upward(wanted),
        ) == hop1zuo1.index_of_first(wanted),
        hop1zuo1.map_values(|piece: ColorAndProf| spec_absolute_to_downward(piece)).index_of_first(
            spec_absolute_to_downward(wanted),
        ) == hop1zuo1.index_of_first(wanted),
{
    let upward = hop1zuo1.map_values(|piece: ColorAndProf| spec_absolute_to_upward(piece));
    let downward = hop1zuo1.map_values(|piece: ColorAndProf| spec_absolute_to_downward(piece));
    hop1zuo1.index_of_first_ensures(wanted);
    upward.index_of_first_ensures(spec_absolute_to_upward(wanted));
    downward.index_of_first_ensures(spec_absolute_to_downward(wanted));
    assert forall|i: int| 0 <= i < hop1zuo1.len() implies (hop1zuo1[i] == wanted) == (upward[i]
        == spec_absolute_to_upward(wanted)) && (hop1zuo1[i] == wanted) == (downward[i]
        == spec_absolute_to_downward(wanted)) by {}
    if hop1zuo1.contains(wanted) {
        let i = hop1zuo1.index_of_first(wanted)->0;
        assert(upward[i] == spec_absolute_to_upward(wanted));
        assert(downward[i] == spec_absolute_to_downward(wanted));
    }
    if upward.contains(spec_absolute_to_upward(wanted)) {
        let i = upward.index_of_first(spec_absolute_to_upward(wanted))->0;
        assert(hop1zuo1[i] == wanted);
    }
    if downward.contains(spec_absolute_to_downward(wanted)) {
        let i = downward.index_of_first(spec_absolute_to_downward(wanted))->0;
        assert(hop1zuo1[i] == wanted);
    }
}

/// At the start of a game the player who starts on IA sees the board with
/// the black king pointing upward, and the other player sees the board with
/// the red king pointing upward.
pub proof fn lemma_initial_boards_agree()
    ensures
        spec_to_relative_board(
            absolute::spec_yhuap_initial_board(),
            Perspective::IaIsDownAndPointsUpward,
        ) == relative::spec_yhuap_initial_board(),
        spec_to_relative_board(
            absolute::spec_yhuap_initial_board(),
            Perspective::IaIsUpAndPointsDownward,
        ) == relative::spec_rotate_board(relative::spec_yhuap_initial_board()),
{
    assert(relative::is_board(relative::spec_yhuap_initial_board()));
    lemma_board_relative_round_trip(
        relative::spec_yhuap_initial_board(),
        Perspective::IaIsDownAndPointsUpward,
    );
    lemma_other_perspective_rotates(
        absolute::spec_yhuap_initial_board(),
        Perspective::IaIsDownAndPointsUpward,
    );
}

} // verus!

//! Coordinates, the 9x9 board and the field (a board with both hop1zuo1) of
//! cetkaik, in absolute and in relative terms, and the moves that change them.

/// Colours, professions and sides.
pub mod fundamental;

/// Why a move was refused.
pub mod error;

/// Numbers as text.
pub mod text;

/// The board in relative terms: "which piece is the opponent's?"
pub mod relative;

/// The board in absolute terms: "which piece lies in the square LIA?"
pub mod absolute;

/// The perspective, which turns absolute and relative terms into each other.
pub mod perspective;

use crate::fundamental::{AbsoluteSide, Color, ColorAndProf, Profession};
use vstd::prelude::*;

verus! {

/// The marker type of this representation: positions are held as they are
/// written, a map from squares to pieces in absolute terms and nine rows of
/// nine squares in relative terms.
#[derive(Debug, Clone, Copy, Hash, Eq, PartialEq)]
pub struct CetkaikNaive;

/// The square that lies `row_delta` rows and `col_delta` columns from a
/// square, if it is one of the 81.
pub open spec fn spec_add_delta(coord: (int, int), row_delta: int, col_delta: int) -> Option<
    (int, int),
> {
    let moved = (coord.0 + row_delta, coord.1 + col_delta);
    if relative::on_board(moved) {
        Some(moved)
    } else {
        None
    }
}

/// Whether the square is tam2 hue by default: a square on a diagonal through
/// the middle of the board, at most two squares from the middle.
pub open spec fn spec_is_tam_hue_by_default(coord: (int, int)) -> bool {
    let rows = if coord.0 >= 4 {
        coord.0 - 4
    } else {
        4 - coord.0
    };
    let cols = if coord.1 >= 4 {
        coord.1 - 4
    } else {
        4 - coord.1
    };
    rows == cols && rows <= 2
}

/// The square that comes at a place when the board is read row by row.
pub open spec fn spec_nth_square(n: int) -> (int, int) {
    (n / 9, n % 9)
}

/// The empty squares among the first `n` squares of a board read row by row,
/// in that order.
pub open spec fn spec_empty_squares_relative(
    board: Map<(int, int), relative::Piece>,
    n: int,
) -> Seq<(int, int)>
    decreases n,
{
    if n <= 0 {
        Seq::empty()
    } else {
        let before = spec_empty_squares_relative(board, n - 1);
        if board.contains_key(spec_nth_square(n - 1)) {
            before
        } else {
            before.push(spec_nth_square(n - 1))
        }
    }
}

/// The empty squares among the first `n` squares of a board read row by row
/// from A to IA, each row from K to P, in that order.
pub open spec fn spec_empty_squares_absolute(
    board: Map<absolute::Coord, absolute::Piece>,
    n: int,
) -> Seq<absolute::Coord>
    decreases n,
{
    if n <= 0 {
        Seq::empty()
    } else {
        let before = spec_empty_squares_absolute(board, n - 1);
        let c = absolute::Coord(absolute::Row::at((n - 1) / 9), absolute::Column::at((n - 1) % 9));
        if board.contains_key(c) {
            before
        } else {
            before.push(c)
        }
    }
}

/// What a player may move on a square: Tam2, told by `None`, or a piece of
/// the player's own, told by its profession.
pub open spec fn spec_movable(piece: relative::Piece, side: relative::Side) -> Option<
    Option<Profession>,
> {
    match piece {
        relative::Piece::Tam2 => Some(None),
        relative::Piece::NonTam2Piece { side: owner, prof, color: _ } => if owner == side {
            Some(Some(prof))
        } else {
            None
        },
    }
}

/// The squares among the first `n` squares of a board read row by row that
/// hold Tam2 or a piece of `side`, in that order, each with what it holds.
pub open spec fn spec_one_side_and_tam(
    board: Map<(int, int), relative::Piece>,
    side: relative::Side,
    n: int,
) -> Seq<((int, int), Option<Profession>)>
    decreases n,
{
    if n <= 0 {
        Seq::empty()
    } else {
        let before = spec_one_side_and_tam(board, side, n - 1);
        let c = spec_nth_square(n - 1);
        if board.contains_key(c) && spec_movable(board[c], side) is Some {
            before.push((c, spec_movable(board[c], side)->0))
        } else {
            before
        }
    }
}

impl CetkaikNaive {
    /// Converts a relative coordinate into an absolute one.
    pub fn to_absolute_coord(coord: relative::Coord, p: perspective::Perspective) -> (r:
        absolute::Coord)
        requires
            relative::on_board(relative::square(coord)),
        ensures
            r == perspective::spec_to_absolute_coord(relative::square(coord), p),
    {
        perspective::to_absolute_coord(coord, p)
    }

    /// The square that lies `row_delta` rows and `col_delta` columns from a
    /// square, if it is one of the 81.
    pub fn add_delta(coord: relative::Coord, row_delta: isize, col_delta: isize) -> (r: Option<
        relative::Coord,
    >)
        ensures
            match r {
                Some(moved) => Some(relative::square(moved)) == spec_add_delta(
                    relative::square(coord),
                    row_delta as int,
                    col_delta as int,
                ),
                None => spec_add_delta(relative::square(coord), row_delta as int, col_delta as int)
                    is None,
            },
    {
        let l: i128 = coord[0] as i128 + row_delta as i128;
        let m: i128 = coord[1] as i128 + col_delta as i128;
        if 0 <= l && l <= 8 && 0 <= m && m <= 8 {
            Some([l as usize, m as usize])
        } else {
            None
        }
    }

    /// The piece on a square of a relative board, if there is one.
    pub fn relative_get(board: relative::Board, coord: relative::Coord) -> (r: Option<
        relative::Piece,
    >)
        requires
            relative::on_board(relative::square(coord)),
        ensures
            r == board@.get(relative::square(coord)),
    {
        board.0[coord[0]][coord[1]]
    }

    /// A copy of a relative board with one square set to hold the given
    /// piece, or to be empty.
    pub fn relative_clone_and_set(
        board: &relative::Board,
        coord: relative::Coord,
        p: Option<relative::Piece>,
    ) -> (r: relative::Board)
        requires
            relative::on_board(relative::square(coord)),
        ensures
            r@ == (match p {
                Some(piece) => board@.insert(relative::square(coord), piece),
                None => board@.remove(relative::square(coord)),
            }),
    {
        let mut new_board = *board;
        new_board.put(coord, p);
        new_board
    }

    /// The piece on a square of an absolute board, if there is one.
    pub fn absolute_get(board: &absolute::Board, coord: absolute::Coord) -> (r: Option<
        absolute::Piece,
    >)
        ensures
            r == board@.get(coord),
    {
        board.peek(coord)
    }

    /// Checks whether the square is tam2 hue by default.
    pub fn is_tam_hue_by_default(coord: relative::Coord) -> (r: bool)
        ensures
            r == spec_is_tam_hue_by_default(relative::square(coord)),
    {
        let i: usize = coord[0];
        let j: usize = coord[1];
        (i == 2 && j == 2) || (i == 2 && j == 6) || (i == 3 && j == 3) || (i == 3 && j == 5) || (i
            == 4 && j == 4) || (i == 5 && j == 3) || (i == 5 && j == 5) || (i == 6 && j == 2) || (i
            == 6 && j == 6)
    }

    /// Tam2, in relative terms.
    pub fn relative_tam2() -> (r: relative::Piece)
        ensures
            r == relative::Piece::Tam2,
    {
        relative::Piece::Tam2
    }

    /// Tam2, in absolute terms.
    pub fn absolute_tam2() -> (r: absolute::Piece)
        ensures
            r == absolute::Piece::Tam2,
    {
        absolute::Piece::Tam2
    }

    /// Whether the side is the one whose pieces point upward.
    pub fn is_upward(s: relative::Side) -> (r: bool)
        ensures
            r == (s is Upward),
    {
        s == relative::Side::Upward
    }

    /// Calls `f_tam` for Tam2 and `f_piece`, with profession and side, for
    /// any other piece, and returns what the call returned.
    pub fn match_on_piece_and_apply<U>(
        piece: relative::Piece,
        f_tam: impl Fn() -> U,
        f_piece: impl Fn(Profession, relative::Side) -> U,
    ) -> (r: U)
        requires
            piece is Tam2 ==> call_requires(f_tam, ()),
            piece matches relative::Piece::NonTam2Piece { prof, side, .. } ==> call_requires(
                f_piece,
                (prof, side),
            ),
        ensures
            match piece {
                relative::Piece::Tam2 => call_ensures(f_tam, (), r),
                relative::Piece::NonTam2Piece { color: _, prof, side } => call_ensures(
                    f_piece,
                    (prof, side),
                    r,
                ),
            },
    {
        match piece {
            relative::Piece::Tam2 => f_tam(),
            relative::Piece::NonTam2Piece { color: _, prof, side } => f_piece(prof, side),
        }
    }

    /// The empty squares of a relative board, row by row.
    pub fn empty_squares_relative(board: &relative::Board) -> (r: Vec<relative::Coord>)
        ensures
            r@.map_values(|c: relative::Coord| relative::square(c)) == spec_empty_squares_relative(
                board@,
                81,
            ),
    {
        let mut ans: Vec<relative::Coord> = Vec::new();
        for rand_i in 0..9usize
            invariant
                ans@.map_values(|c: relative::Coord| relative::square(c))
                    == spec_empty_squares_relative(board@, 9 * rand_i),
        {
            for rand_j in 0..9usize
                invariant
                    rand_i < 9,
                    ans@.map_values(|c: relative::Coord| relative::square(c))
                        == spec_empty_squares_relative(board@, 9 * rand_i + rand_j),
            {
                let coord: relative::Coord = [rand_i, rand_j];
                let ghost before = ans@;
                if board.peek(coord).is_none() {
                    ans.push(coord);
                    assert(ans@.map_values(|c: relative::Coord| relative::square(c))
                        =~= before.map_values(|c: relative::Coord| relative::square(c)).push(
                        relative::square(coord),
                    ));
                }
                assert(spec_nth_square(9 * rand_i + rand_j) == relative::square(coord));
            }
        }
        ans
    }

    /// The empty squares of an absolute board, row by row from A to IA, each
    /// row from K to P.
    pub fn empty_squares_absolute(board: &absolute::Board) -> (r: Vec<absolute::Coord>)
        ensures
            r@ == spec_empty_squares_absolute(board@, 81),
    {
        let p = perspective::Perspective::IaIsDownAndPointsUpward;
        let mut ans: Vec<absolute::Coord> = Vec::new();
        for i in 0..9usize
            invariant
                p == perspective::Perspective::IaIsDownAndPointsUpward,
                ans@ == spec_empty_squares_absolute(board@, 9 * i),
        {
            for j in 0..9usize
                invariant
                    i < 9,
                    p == perspective::Perspective::IaIsDownAndPointsUpward,
                    ans@ == spec_empty_squares_absolute(board@, 9 * i + j),
            {
                let coord = perspective::to_absolute_coord([i, j], p);
                if board.peek(coord).is_none() {
                    ans.push(coord);
                }
                assert((9 * i + j) / 9 == i && (9 * i + j) % 9 == j);
            }
        }
        ans
    }

    /// The hop1zuo1 of a side, in the order in which its pieces came.
    pub fn hop1zuo1_of(side: AbsoluteSide, field: &absolute::Field) -> (r: Vec<ColorAndProf>)
        ensures
            r@ == field@.hop1zuo1_of(side),
    {
        match side {
            AbsoluteSide::IASide => field.ia_side_hop1zuo1.clone(),
            AbsoluteSide::ASide => field.a_side_hop1zuo1.clone(),
        }
    }

    /// The board of an absolute field.
    pub fn as_board_absolute(field: &absolute::Field) -> (board: &absolute::Board)
        ensures
            *board == field.board,
    {
        &field.board
    }

    /// The board of an absolute field, to be changed in place.
    pub fn as_board_mut_absolute(field: &mut absolute::Field) -> (board: &mut absolute::Board)
        ensures
            *board == old(field).board,
            *final(field) == (absolute::Field { board: *final(board), ..*old(field) }),
    {
        &mut field.board
    }

    /// The board of a relative field.
    pub fn as_board_relative(field: &relative::Field) -> (board: &relative::Board)
        ensures
            *board == field.current_board,
    {
        &field.current_board
    }

    /// Checks whether a relative square is tam2 nua2 (the water).
    pub fn is_water_relative(c: relative::Coord) -> (r: bool)
        ensures
            r == relative::spec_is_water(relative::square(c)),
    {
        relative::is_water(c)
    }

    /// Checks whether an absolute square is tam2 nua2 (the water).
    pub fn is_water_absolute(c: absolute::Coord) -> (r: bool)
        ensures
            r == absolute::spec_is_water(c),
    {
        absolute::is_water(c)
    }

    /// The squares of a board that hold Tam2 or a piece of `side`, row by
    /// row, each with `None` for Tam2 or the profession of the piece.
    pub fn loop_over_one_side_and_tam(board: &relative::Board, side: relative::Side) -> (r: Vec<
        (relative::Coord, Option<Profession>),
    >)
        ensures
            r@.map_values(
                |visit: (relative::Coord, Option<Profession>)| (relative::square(visit.0), visit.1),
            ) == spec_one_side_and_tam(board@, side, 81),
    {
        let mut ans: Vec<(relative::Coord, Option<Profession>)> = Vec::new();
        for rand_i in 0..9usize
            invariant
                ans@.map_values(
                    |visit: (relative::Coord, Option<Profession>)|
                        (relative::square(visit.0), visit.1),
                ) == spec_one_side_and_tam(board@, side, 9 * rand_i),
        {
            for rand_j in 0..9usize
                invariant
                    rand_i < 9,
                    ans@.map_values(
                        |visit: (relative::Coord, Option<Profession>)|
                            (relative::square(visit.0), visit.1),
                    ) == spec_one_side_and_tam(board@, side, 9 * rand_i + rand_j),
            {
                let src: relative::Coord = [rand_i, rand_j];
                let ghost before = ans@;
                assert(spec_nth_square(9 * rand_i + rand_j) == relative::square(src));
                if let Some(p) = board.0[rand_i][rand_j] {
                    match p {
                        relative::Piece::Tam2 => {
                            ans.push((src, None));
                            assert(ans@.map_values(
                                |visit: (relative::Coord, Option<Profession>)|
                                    (relative::square(visit.0), visit.1),
                            ) =~= before.map_values(
                                |visit: (relative::Coord, Option<Profession>)|
                                    (relative::square(visit.0), visit.1),
                            ).push((relative::square(src), None)));
                        },
                        relative::Piece::NonTam2Piece { side: side_, prof, color: _ } => {
                            if side_ == side {
                                ans.push((src, Some(prof)));
                                assert(ans@.map_values(
                                    |visit: (relative::Coord, Option<Profession>)|
                                        (relative::square(visit.0), visit.1),
                                ) =~= before.map_values(
                                    |visit: (relative::Coord, Option<Profession>)|
                                        (relative::square(visit.0), visit.1),
                                ).push((relative::square(src), Some(prof))));
                            }
                        },
                    }
                }
            }
        }
        ans
    }

    /// Converts an absolute field into a relative one.
    pub fn to_relative_field(field: absolute::Field, p: perspective::Perspective) -> (r:
        relative::Field)
        ensures
            r@ == perspective::spec_to_relative_field(field@, p),
    {
        perspective::to_relative_field(field, p)
    }

    /// Converts an absolute side into a relative one.
    pub fn to_relative_side(side: AbsoluteSide, p: perspective::Perspective) -> (r: relative::Side)
        ensures
            r == perspective::spec_to_relative_side(side, p),
    {
        perspective::to_relative_side(side, p)
    }

    /// One of the two perspectives, always the same.
    pub fn get_one_perspective() -> (p: perspective::Perspective)
        ensures
            p == perspective::Perspective::IaIsDownAndPointsUpward,
    {
        perspective::Perspective::IaIsDownAndPointsUpward
    }

    /// The distance between two absolute squares.
    pub fn absolute_distance(a: absolute::Coord, b: absolute::Coord) -> (d: i32)
        ensures
            d == absolute::spec_distance(a, b),
    {
        absolute::distance(a, b)
    }

    /// Checks whether `a` and `b` lie in the same direction from `origin`.
    pub fn absolute_same_direction(
        origin: absolute::Coord,
        a: absolute::Coord,
        b: absolute::Coord,
    ) -> (r: bool)
        ensures
            r == absolute::spec_same_direction(origin, a, b),
    {
        absolute::same_direction(origin, a, b)
    }

    /// Whether an absolute piece has the given profession. Tam2 has none.
    pub fn has_prof_absolute(piece: absolute::Piece, prof: Profession) -> (r: bool)
        ensures
            r == (piece matches absolute::Piece::NonTam2Piece { prof: its, .. } && its == prof),
    {
        piece.has_prof(prof)
    }

    /// Calls `f_tam` for Tam2 and `f_piece`, with colour, profession and
    /// side, for any other piece, and returns what the call returned.
    pub fn match_on_relative_piece_and_apply<U>(
        piece: relative::Piece,
        f_tam: impl Fn() -> U,
        f_piece: impl Fn(Color, Profession, relative::Side) -> U,
    ) -> (r: U)
        requires
            piece is Tam2 ==> call_requires(f_tam, ()),
            piece matches relative::Piece::NonTam2Piece { color, prof, side } ==> call_requires(
                f_piece,
                (color, prof, side),
            ),
        ensures
            match piece {
                relative::Piece::Tam2 => call_ensures(f_tam, (), r),
                relative::Piece::NonTam2Piece { color, prof, side } => call_ensures(
                    f_piece,
                    (color, prof, side),
                    r,
                ),
            },
    {
        match piece {
            relative::Piece::Tam2 => f_tam(),
            relative::Piece::NonTam2Piece { color, prof, side } => f_piece(color, prof, side),
        }
    }

    /// Calls `f_tam` for Tam2 and `f_piece`, with colour, profession and
    /// side, for any other piece, and returns what the call returned.
    pub fn match_on_absolute_piece_and_apply<U>(
        piece: absolute::Piece,
        f_tam: impl Fn() -> U,
        f_piece: impl Fn(Color, Profession, AbsoluteSide) -> U,
    ) -> (r: U)
        requires
            piece is Tam2 ==> call_requires(f_tam, ()),
            piece matches absolute::Piece::NonTam2Piece { color, prof, side } ==> call_requires(
                f_piece,
                (color, prof, side),
            ),
        ensures
            match piece {
                absolute::Piece::Tam2 => call_ensures(f_tam, (), r),
                absolute::Piece::NonTam2Piece { color, prof, side } => call_ensures(
                    f_piece,
                    (color, prof, side),
                    r,
                ),
            },
    {
        match piece {
            absolute::Piece::Tam2 => f_tam(),
            absolute::Piece::NonTam2Piece { color, prof, side } => f_piece(color, prof, side),
        }
    }
}

/// The list of the empty squares of a relative board names each empty
/// square of the board, and nothing else.
pub proof fn lemma_empty_squares_relative_are_the_empty_ones(
    board: Map<(int, int), relative::Piece>,
    c: (int, int),
)
    ensures
        spec_empty_squares_relative(board, 81).contains(c) <==> relative::on_board(c)
            && !board.contains_key(c),
{
    lemma_empty_squares_relative_before(board, 81, c);
    if relative::on_board(c) {
        assert(spec_nth_square(9 * c.0 + c.1) == c);
    }
}

proof fn lemma_empty_squares_relative_before(
    board: Map<(int, int), relative::Piece>,
    n: int,
    c: (int, int),
)
    requires
        0 <= n,
    ensures
        spec_empty_squares_relative(board, n).contains(c) <==> !board.contains_key(c) && (exists|
            k: int|
            0 <= k < n && #[trigger] spec_nth_square(k) == c),
    decreases n,
{
    if n > 0 {
        lemma_empty_squares_relative_before(board, n - 1, c);
        let before = spec_empty_squares_relative(board, n - 1);
        let last = spec_nth_square(n - 1);
        if !board.contains_key(last) {
            let all = before.push(last);
            assert(all[all.len() - 1] == last);
            if before.contains(c) {
                let i = choose|i: int| 0 <= i < before.len() && before[i] == c;
                assert(all[i] == c);
            }
        }
    }
}

/// The list of the empty squares of an absolute board names each empty
/// square of the board, and nothing else.
pub proof fn lemma_empty_squares_absolute_are_the_empty_ones(
    board: Map<absolute::Coord, absolute::Piece>,
    c: absolute::Coord,
)
    ensures
        spec_empty_squares_absolute(board, 81).contains(c) <==> !board.contains_key(c),
{
    lemma_empty_squares_absolute_before(board, 81, c);
    assert(c.number() / 9 == c.0.index() && c.number() % 9 == c.1.index());
    assert(absolute::Coord(
        absolute::Row::at(c.number() / 9),
        absolute::Column::at(c.number() % 9),
    ) == c);
}

proof fn lemma_empty_squares_absolute_before(
    board: Map<absolute::Coord, absolute::Piece>,
    n: int,
    c: absolute::Coord,
)
    requires
        0 <= n,
    ensures
        spec_empty_squares_absolute(board, n).contains(c) <==> !board.contains_key(c) && (exists|
            k: int|
            0 <= k < n && absolute::Coord(
                #[trigger] absolute::Row::at(k / 9),
                absolute::Column::at(k % 9),
            ) == c),
    decreases n,
{
    if n > 0 {
        lemma_empty_squares_absolute_before(board, n - 1, c);
        let before = spec_empty_squares_absolute(board, n - 1);
        let last = absolute::Coord(
            absolute::Row::at((n - 1) / 9),
            absolute::Column::at((n - 1) % 9),
        );
        if !board.contains_key(last) {
            let all = before.push(last);
            assert(all[all.len() - 1] == last);
            if before.contains(c) {
                let i = choose|i: int| 0 <= i < before.len() && before[i] == c;
                assert(all[i] == c);
            }
        }
    }
}

} // verus!

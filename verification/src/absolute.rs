//! The board in absolute terms: "which piece lies in the square LIA?"

use crate::error::MoveError;
use crate::fundamental::{AbsoluteSide, Color, ColorAndProf, Profession};
use crate::perspective::{
    spec_to_absolute_board, spec_to_relative_coord, to_absolute_coord, to_relative_coord,
    Perspective,
};
use crate::relative;
use std::collections::HashMap;
use vstd::prelude::*;
use vstd::string::{StrSliceExecFns, StringExecFns};

verus! {

/// A row of the board, from the far side of the IA player to the near side.
#[derive(PartialEq, Eq, Hash, Clone, Copy, Debug, Structural)]
#[allow(missing_docs)]
pub enum Row {
    A,
    E,
    I,
    U,
    O,
    Y,
    AI,
    AU,
    IA,
}

/// A column of the board, from the left of the IA player to the right.
#[derive(PartialEq, Eq, Hash, Clone, Copy, Debug, Structural)]
#[allow(missing_docs)]
pub enum Column {
    K,
    L,
    N,
    T,
    Z,
    X,
    C,
    M,
    P,
}

/// A square of the board, named by its row and its column.
#[derive(Clone, Debug, Eq, Hash, PartialEq, Copy, Structural)]
pub struct Coord(pub Row, pub Column);

impl Row {
    /// The place of the row among the nine, A being 0 and IA being 8.
    pub open spec fn index(self) -> int {
        match self {
            Row::A => 0,
            Row::E => 1,
            Row::I => 2,
            Row::U => 3,
            Row::O => 4,
            Row::Y => 5,
            Row::AI => 6,
            Row::AU => 7,
            Row::IA => 8,
        }
    }

    /// The row at a place; IA for every place past the eighth.
    pub open spec fn at(i: int) -> Row {
        if i <= 0 {
            Row::A
        } else if i == 1 {
            Row::E
        } else if i == 2 {
            Row::I
        } else if i == 3 {
            Row::U
        } else if i == 4 {
            Row::O
        } else if i == 5 {
            Row::Y
        } else if i == 6 {
            Row::AI
        } else if i == 7 {
            Row::AU
        } else {
            Row::IA
        }
    }
}

impl Column {
    /// The place of the column among the nine, K being 0 and P being 8.
    pub open spec fn index(self) -> int {
        match self {
            Column::K => 0,
            Column::L => 1,
            Column::N => 2,
            Column::T => 3,
            Column::Z => 4,
            Column::X => 5,
            Column::C => 6,
            Column::M => 7,
            Column::P => 8,
        }
    }

    /// The column at a place; P for every place past the eighth.
    pub open spec fn at(i: int) -> Column {
        if i <= 0 {
            Column::K
        } else if i == 1 {
            Column::L
        } else if i == 2 {
            Column::N
        } else if i == 3 {
            Column::T
        } else if i == 4 {
            Column::Z
        } else if i == 5 {
            Column::X
        } else if i == 6 {
            Column::C
        } else if i == 7 {
            Column::M
        } else {
            Column::P
        }
    }
}

impl Row {
    /// The name of the row, in capital letters.
    pub open spec fn text(self) -> Seq<char> {
        match self {
            Row::A => seq!['A'],
            Row::E => seq!['E'],
            Row::I => seq!['I'],
            Row::U => seq!['U'],
            Row::O => seq!['O'],
            Row::Y => seq!['Y'],
            Row::AI => seq!['A', 'I'],
            Row::AU => seq!['A', 'U'],
            Row::IA => seq!['I', 'A'],
        }
    }
}

impl Column {
    /// The name of the column, a capital letter.
    pub open spec fn text(self) -> Seq<char> {
        match self {
            Column::K => seq!['K'],
            Column::L => seq!['L'],
            Column::N => seq!['N'],
            Column::T => seq!['T'],
            Column::Z => seq!['Z'],
            Column::X => seq!['X'],
            Column::C => seq!['C'],
            Column::M => seq!['M'],
            Column::P => seq!['P'],
        }
    }
}

/// A coordinate as text: the name of its column, then the name of its row.
pub open spec fn spec_serialize_coord(coord: Coord) -> Seq<char> {
    coord.1.text() + coord.0.text()
}

/// The coordinate that a text names: the one that is written so, if there is
/// one.
pub open spec fn spec_parse_coord(text: Seq<char>) -> Option<Coord> {
    if exists|c: Coord| spec_serialize_coord(c) == text {
        Some(choose|c: Coord| spec_serialize_coord(c) == text)
    } else {
        None
    }
}

/// No two coordinates are written alike, so reading what was written for a
/// coordinate gives that coordinate.
pub proof fn lemma_parse_serialize_round_trip(c: Coord)
    ensures
        spec_parse_coord(spec_serialize_coord(c)) == Some(c),
{
    let text = spec_serialize_coord(c);
    let d = choose|d: Coord| spec_serialize_coord(d) == text;
    lemma_serialize_coord_injective(c, d);
}

/// No two coordinates are written alike.
pub proof fn lemma_serialize_coord_injective(c: Coord, d: Coord)
    requires
        spec_serialize_coord(c) == spec_serialize_coord(d),
    ensures
        c == d,
{
    let s = spec_serialize_coord(c);
    let t = spec_serialize_coord(d);
    assert(s.len() == t.len());
    assert(s[0] == t[0]);
    assert(s[1] == t[1]);
    if s.len() == 3 {
        assert(s[2] == t[2]);
    }
}

/// Parses a coordinate, as in `LIA`. Capital letters only.
#[must_use]
pub fn parse_coord(coord: &str) -> (r: Option<Coord>)
    ensures
        r == spec_parse_coord(coord@),
{
    let n = coord.unicode_len();
    if n == 0 || n > 3 {
        proof {
            lemma_not_a_coord_by_length(coord@);
        }
        return None;
    }
    let column = match coord.get_char(0) {
        'C' => Some(Column::C),
        'K' => Some(Column::K),
        'L' => Some(Column::L),
        'M' => Some(Column::M),
        'N' => Some(Column::N),
        'P' => Some(Column::P),
        'T' => Some(Column::T),
        'X' => Some(Column::X),
        'Z' => Some(Column::Z),
        _ => None,
    };
    let column = match column {
        Some(column) => column,
        None => {
            proof {
                lemma_not_a_coord_by_column(coord@);
            }
            return None;
        },
    };

    let row = if n == 2 {
        match coord.get_char(1) {
            'A' => Some(Row::A),
            'E' => Some(Row::E),
            'I' => Some(Row::I),
            'O' => Some(Row::O),
            'U' => Some(Row::U),
            'Y' => Some(Row::Y),
            _ => None,
        }
    } else if n == 3 {
        match (coord.get_char(1), coord.get_char(2)) {
            ('A', 'I') => Some(Row::AI),
            ('A', 'U') => Some(Row::AU),
            ('I', 'A') => Some(Row::IA),
            _ => None,
        }
    } else {
        None
    };
    let row = match row {
        Some(row) => row,
        None => {
            proof {
                let rest = coord@.subrange(1, coord@.len() as int);
                assert forall|row: Row| rest != #[trigger] row.text() by {
                    if rest == row.text() {
                        assert(rest[0] == row.text()[0]);
                        if rest.len() == 2 {
                            assert(rest[1] == row.text()[1]);
                        }
                    }
                }
                lemma_not_a_coord_by_row(coord@);
            }
            return None;
        },
    };

    proof {
        assert(coord@ =~= spec_serialize_coord(Coord(row, column)));
        lemma_parse_serialize_round_trip(Coord(row, column));
    }
    Some(Coord(row, column))
}

proof fn lemma_not_a_coord_by_length(text: Seq<char>)
    requires
        text.len() < 2 || text.len() > 3,
    ensures
        spec_parse_coord(text) is None,
{
    assert forall|c: Coord| spec_serialize_coord(c) != text by {
        assert(2 <= spec_serialize_coord(c).len() <= 3);
    }
}

proof fn lemma_not_a_coord_by_column(text: Seq<char>)
    requires
        text.len() >= 1,
        forall|column: Column| text[0] != #[trigger] column.text()[0],
    ensures
        spec_parse_coord(text) is None,
{
    assert forall|c: Coord| spec_serialize_coord(c) != text by {
        assert(spec_serialize_coord(c)[0] == c.1.text()[0]);
    }
}

proof fn lemma_not_a_coord_by_row(text: Seq<char>)
    requires
        text.len() >= 1,
        forall|row: Row| text.subrange(1, text.len() as int) != #[trigger] row.text(),
    ensures
        spec_parse_coord(text) is None,
{
    assert forall|c: Coord| spec_serialize_coord(c) != text by {
        let s = spec_serialize_coord(c);
        assert(s.subrange(1, s.len() as int) =~= c.0.text());
    }
}

/// Serializes a coordinate, as in `ZAU`.
#[must_use]
pub fn serialize_coord(coord: Coord) -> (text: String)
    ensures
        text@ == spec_serialize_coord(coord),
{
    proof {
        reveal_strlit("K");
        reveal_strlit("L");
        reveal_strlit("M");
        reveal_strlit("N");
        reveal_strlit("P");
        reveal_strlit("Z");
        reveal_strlit("X");
        reveal_strlit("C");
        reveal_strlit("T");
        reveal_strlit("A");
        reveal_strlit("E");
        reveal_strlit("I");
        reveal_strlit("O");
        reveal_strlit("U");
        reveal_strlit("Y");
        reveal_strlit("IA");
        reveal_strlit("AI");
        reveal_strlit("AU");
    }
    let Coord(row, column) = coord;
    let mut text = String::from_str(
        match column {
            Column::K => "K",
            Column::L => "L",
            Column::M => "M",
            Column::N => "N",
            Column::P => "P",
            Column::Z => "Z",
            Column::X => "X",
            Column::C => "C",
            Column::T => "T",
        },
    );
    text.append(
        match row {
            Row::A => "A",
            Row::E => "E",
            Row::I => "I",
            Row::O => "O",
            Row::U => "U",
            Row::Y => "Y",
            Row::IA => "IA",
            Row::AI => "AI",
            Row::AU => "AU",
        },
    );
    assert(text@ =~= spec_serialize_coord(coord));
    text
}

impl std::str::FromStr for Coord {
    type Err = ();

    fn from_str(s: &str) -> (r: Result<Coord, ()>)
        ensures
            r == (match spec_parse_coord(s@) {
                Some(c) => Ok::<Coord, ()>(c),
                None => Err::<Coord, ()>(()),
            }),
    {
        match parse_coord(s) {
            Some(c) => Ok(c),
            None => Err(()),
        }
    }
}

/// A piece on the board.
#[derive(Copy, Clone, Debug, Eq, PartialEq, Hash, Structural)]
pub enum Piece {
    /// Tam2, the one piece that belongs to neither side; both players may move it.
    Tam2,
    /// Every other piece; it belongs to one side.
    NonTam2Piece {
        /// colour of the piece
        color: Color,
        /// profession of the piece
        prof: Profession,
        /// the side that owns the piece
        side: AbsoluteSide,
    },
}

impl Piece {
    /// Whether the piece is Tam2.
    #[must_use]
    pub fn is_tam2(self) -> (r: bool)
        ensures
            r == (self is Tam2),
    {
        match self {
            Piece::Tam2 => true,
            Piece::NonTam2Piece { .. } => false,
        }
    }

    /// Whether the piece has the given colour. Tam2 has none.
    #[must_use]
    pub fn has_color(self, clr: Color) -> (r: bool)
        ensures
            r == (self matches Piece::NonTam2Piece { color, .. } && color == clr),
    {
        match self {
            Piece::Tam2 => false,
            Piece::NonTam2Piece { color, .. } => color == clr,
        }
    }

    /// Whether the piece has the given profession. Tam2 has none.
    #[must_use]
    pub fn has_prof(self, prf: Profession) -> (r: bool)
        ensures
            r == (self matches Piece::NonTam2Piece { prof, .. } && prof == prf),
    {
        match self {
            Piece::Tam2 => false,
            Piece::NonTam2Piece { prof, .. } => prof == prf,
        }
    }

    /// Whether the piece belongs to the given side. Tam2 belongs to neither.
    #[must_use]
    pub fn has_side(self, sid: AbsoluteSide) -> (r: bool)
        ensures
            r == (self matches Piece::NonTam2Piece { side, .. } && side == sid),
    {
        match self {
            Piece::Tam2 => false,
            Piece::NonTam2Piece { side, .. } => side == sid,
        }
    }
}

/// The distance between two squares: the larger of the difference of their
/// rows and the difference of their columns.
pub open spec fn spec_distance(a: Coord, b: Coord) -> int {
    relative::spec_distance(
        spec_to_relative_coord(a, Perspective::IaIsDownAndPointsUpward),
        spec_to_relative_coord(b, Perspective::IaIsDownAndPointsUpward),
    )
}

/// Calculates the distance between two squares: the larger of the difference
/// of their rows and the difference of their columns.
#[must_use]
pub fn distance(a: Coord, b: Coord) -> (d: i32)
    ensures
        d == spec_distance(a, b),
        0 <= d <= 8,
{
    // the distance does not depend on the perspective, so either will do
    relative::distance(
        to_relative_coord(a, Perspective::IaIsDownAndPointsUpward),
        to_relative_coord(b, Perspective::IaIsDownAndPointsUpward),
    )
}

/// Whether `a` and `b` lie in the same direction as seen from `origin`: the
/// vectors from `origin` to each point the same way along one line.
pub open spec fn spec_same_direction(origin: Coord, a: Coord, b: Coord) -> bool {
    let a_u = a.0.index() - origin.0.index();
    let a_v = a.1.index() - origin.1.index();
    let b_u = b.0.index() - origin.0.index();
    let b_v = b.1.index() - origin.1.index();
    a_u * b_u + a_v * b_v > 0 && a_u * b_v - a_v * b_u == 0
}

/// Checks whether `a` and `b` lie in the same direction as seen from `origin`.
#[must_use]
pub fn same_direction(origin: Coord, a: Coord, b: Coord) -> (r: bool)
    ensures
        r == spec_same_direction(origin, a, b),
{
    // the answer does not depend on the perspective, so either will do
    let origin = to_relative_coord(origin, Perspective::IaIsDownAndPointsUpward);
    let a = to_relative_coord(a, Perspective::IaIsDownAndPointsUpward);
    let b = to_relative_coord(b, Perspective::IaIsDownAndPointsUpward);

    let a_u: isize = (a[0] as isize) - (origin[0] as isize);
    let a_v: isize = (a[1] as isize) - (origin[1] as isize);
    let b_u: isize = (b[0] as isize) - (origin[0] as isize);
    let b_v: isize = (b[1] as isize) - (origin[1] as isize);

    assert(-64 <= a_u * b_u <= 64 && -64 <= a_v * b_v <= 64 && -64 <= a_u * b_v <= 64 && -64
        <= a_v * b_u <= 64) by (nonlinear_arith)
        requires
            -8 <= a_u <= 8,
            -8 <= a_v <= 8,
            -8 <= b_u <= 8,
            -8 <= b_v <= 8,
    ;
    (a_u * b_u + a_v * b_v > 0) && (a_u * b_v - a_v * b_u == 0)
}

/// Whether the square is tam2 nua2, the water: the row O from N to C and the
/// column Z from I to AI.
pub open spec fn spec_is_water(c: Coord) -> bool {
    (c.0 == Row::O && 2 <= c.1.index() <= 6) || (c.1 == Column::Z && 2 <= c.0.index() <= 6)
}

/// Checks whether the square is tam2 nua2 (the water), entry to which is restricted.
#[must_use]
pub fn is_water(c: Coord) -> (r: bool)
    ensures
        r == spec_is_water(c),
{
    let Coord(row, col) = c;
    match row {
        Row::O => matches!(col, Column::N | Column::T | Column::Z | Column::X | Column::C),
        Row::I | Row::U | Row::Y | Row::AI => matches!(col, Column::Z),
        _ => false,
    }
}

/// The board: the squares that hold a piece, with the piece of each.
///
/// A piece is filed under the number of its square, nine times the place of
/// the row plus the place of the column; the board is what is filed under
/// the numbers of the 81 squares, and nothing is ever filed elsewhere.
#[derive(Debug)]
pub struct Board(HashMap<u8, Piece>);

impl Coord {
    /// The number of the square: nine times the place of its row plus the
    /// place of its column.
    pub open spec fn number(self) -> int {
        9 * self.0.index() + self.1.index()
    }
}

/// Computes the number under which the piece of a square is filed.
fn number_of(c: Coord) -> (k: u8)
    ensures
        k == c.number(),
{
    let r = to_relative_coord(c, Perspective::IaIsDownAndPointsUpward);
    (9 * r[0] + r[1]) as u8
}

impl View for Board {
    type V = Map<Coord, Piece>;

    /// The occupied squares, each with the piece that stands on it.
    closed spec fn view(&self) -> Map<Coord, Piece> {
        Map::new(
            |c: Coord| self.0@.contains_key(c.number() as u8),
            |c: Coord| self.0@[c.number() as u8],
        )
    }
}

impl Board {
    /// A board without a piece.
    #[must_use]
    pub fn new() -> (board: Board)
        ensures
            board@ == Map::<Coord, Piece>::empty(),
    {
        let board = Board(HashMap::new());
        assert(board@ =~= Map::<Coord, Piece>::empty());
        board
    }

    /// The piece on a square, if there is one. The board stays as it is.
    #[must_use]
    pub fn peek(&self, c: Coord) -> (piece: Option<Piece>)
        ensures
            piece == self@.get(c),
    {
        let k = number_of(c);
        match self.0.get(&k) {
            Some(p) => Some(*p),
            None => None,
        }
    }

    /// Takes the piece off a square and returns it, if there is one. The
    /// square is empty afterwards, so a second call returns `None`.
    pub fn pop(&mut self, c: Coord) -> (piece: Option<Piece>)
        ensures
            piece == old(self)@.get(c),
            final(self)@ == old(self)@.remove(c),
            final(self)@.get(c) is None,
    {
        let k = number_of(c);
        let piece = self.0.remove(&k);
        assert(self@ =~= old(self)@.remove(c));
        piece
    }

    /// Sets a square to hold the given piece, or to be empty; what stood there
    /// before is lost.
    pub fn put(&mut self, c: Coord, p: Option<Piece>)
        ensures
            final(self)@ == (match p {
                Some(piece) => old(self)@.insert(c, piece),
                None => old(self)@.remove(c),
            }),
    {
        let k = number_of(c);
        match p {
            None => {
                self.0.remove(&k);
                assert(self@ =~= old(self)@.remove(c));
            },
            Some(piece) => {
                self.0.insert(k, piece);
                assert(self@ =~= old(self)@.insert(c, piece));
            },
        }
    }

    /// The board at the start of a game.
    #[must_use]
    pub fn yhuap_initial() -> (board: Board)
        ensures
            board@ == spec_yhuap_initial_board(),
    {
        yhuap_initial_board()
    }

    /// States that a square is empty: a call is accepted only where it is.
    pub fn assert_empty(&self, c: Coord)
        requires
            !self@.contains_key(c),
    {
    }

    /// States that a square is occupied: a call is accepted only where it is.
    pub fn assert_occupied(&self, c: Coord)
        requires
            self@.contains_key(c),
    {
    }
}

impl vstd::std_specs::cmp::PartialEqSpecImpl for Board {
    open spec fn obeys_eq_spec() -> bool {
        true
    }

    open spec fn eq_spec(&self, other: &Board) -> bool {
        self@ == other@
    }
}

impl PartialEq for Board {
    /// Two boards are equal where the same squares hold the same pieces.
    fn eq(&self, other: &Board) -> (same: bool) {
        let p = Perspective::IaIsDownAndPointsUpward;
        for i in 0..9usize
            invariant
                p == Perspective::IaIsDownAndPointsUpward,
                forall|c: Coord| c.0.index() < i ==> self@.get(c) == other@.get(c),
        {
            for j in 0..9usize
                invariant
                    i < 9,
                    p == Perspective::IaIsDownAndPointsUpward,
                    forall|c: Coord| c.0.index() < i ==> self@.get(c) == other@.get(c),
                    forall|c: Coord|
                        c.0.index() == i && c.1.index() < j ==> self@.get(c) == other@.get(c),
            {
                let c = to_absolute_coord([i, j], p);
                if self.peek(c) != other.peek(c) {
                    return false;
                }
                assert forall|d: Coord| d.0.index() == i && d.1.index() < j + 1 implies self@.get(
                    d,
                ) == other@.get(d) by {
                    if d.1.index() == j {
                        assert(d == c);
                    }
                }
            }
        }
        assert(self@ =~= other@) by {
            assert forall|c: Coord| self@.get(c) == other@.get(c) by {
                assert(c.0.index() < 9);
            }
            assert forall|c: Coord| self@.contains_key(c) == other@.contains_key(c) by {
                assert(self@.get(c) == other@.get(c));
            }
            assert forall|c: Coord| self@.contains_key(c) implies self@[c] == other@[c] by {
                assert(self@.get(c) == other@.get(c));
            }
        }
        true
    }
}

impl Eq for Board {

}

impl Clone for Board {
    fn clone(&self) -> (copy: Board)
        ensures
            copy@ == self@,
    {
        let copy = Board(self.0.clone());
        assert(copy@ =~= self@);
        copy
    }
}

/// Two boards that agree on each of the 81 squares are the same board.
pub proof fn lemma_equal_on_all_squares(a: Map<Coord, Piece>, b: Map<Coord, Piece>)
    requires
        forall|i: int, j: int|
            0 <= i < 9 && 0 <= j < 9 ==> a.get(
                Coord(#[trigger] Row::at(i), #[trigger] Column::at(j)),
            ) == b.get(Coord(Row::at(i), Column::at(j))),
    ensures
        a == b,
{
    assert forall|c: Coord| a.get(c) == b.get(c) by {
        assert(c == Coord(Row::at(c.0.index()), Column::at(c.1.index())));
    }
    assert forall|c: Coord| a.contains_key(c) == b.contains_key(c) by {
        assert(a.get(c) == b.get(c));
    }
    assert forall|c: Coord| a.contains_key(c) implies a[c] == b[c] by {
        assert(a.get(c) == b.get(c));
    }
    assert(a =~= b);
}

/// The board at the start of a game: the board that the player who starts on
/// the row IA, who has the black king, sees as the one whose pieces point
/// upward.
pub open spec fn spec_yhuap_initial_board() -> Map<Coord, Piece> {
    spec_to_absolute_board(
        relative::spec_yhuap_initial_board(),
        Perspective::IaIsDownAndPointsUpward,
    )
}

/// Returns the initial configuration as specified in the y1 huap1 (the
/// standardized rule): Tam2 on ZO, the black king on ZIA, the red king on ZA.
#[must_use]
#[allow(clippy::too_many_lines)]
#[verifier::rlimit(50)]
pub fn yhuap_initial_board() -> (board: Board)
    ensures
        board@ == spec_yhuap_initial_board(),
{
    let mut board = Board::new();
    board.put(Coord(Row::O, Column::Z), Some(Piece::Tam2));
    board.put(
        Coord(Row::AI, Column::Z),
        Some(
            Piece::NonTam2Piece {
                prof: Profession::Nuak1,
                color: Color::Huok2,
                side: AbsoluteSide::IASide,
            },
        ),
    );
    board.put(
        Coord(Row::AI, Column::K),
        Some(
            Piece::NonTam2Piece {
                prof: Profession::Kauk2,
                color: Color::Huok2,
                side: AbsoluteSide::IASide,
            },
        ),
    );
    board.put(
        Coord(Row::AI, Column::N),
        Some(
            Piece::NonTam2Piece {
                prof: Profession::Kauk2,
                color: Color::Huok2,
                side: AbsoluteSide::IASide,
            },
        ),
    );
    board.put(
        Coord(Row::AI, Column::C),
        Some(
            Piece::NonTam2Piece {
                prof: Profession::Kauk2,
                color: Color::Huok2,
                side: AbsoluteSide::IASide,
            },
        ),
    );
    board.put(
        Coord(Row::AI, Column::P),
        Some(
            Piece::NonTam2Piece {
                prof: Profession::Kauk2,
                color: Color::Huok2,
                side: AbsoluteSide::IASide,
            },
        ),
    );
    board.put(
        Coord(Row::AI, Column::L),
        Some(
            Piece::NonTam2Piece {
                prof: Profession::Kauk2,
                color: Color::Kok1,
                side: AbsoluteSide::IASide,
            },
        ),
    );
    board.put(
        Coord(Row::AI, Column::T),
        Some(
            Piece::NonTam2Piece {
                prof: Profession::Kauk2,
                color: Color::Kok1,
                side: AbsoluteSide::IASide,
            },
        ),
    );
    board.put(
        Coord(Row::AI, Column::X),
        Some(
            Piece::NonTam2Piece {
                prof: Profession::Kauk2,
                color: Color::Kok1,
                side: AbsoluteSide::IASide,
            },
        ),
    );
    board.put(
        Coord(Row::AI, Column::M),
        Some(
            Piece::NonTam2Piece {
                prof: Profession::Kauk2,
                color: Color::Kok1,
                side: AbsoluteSide::IASide,
            },
        ),
    );
    board.put(
        Coord(Row::AU, Column::L),
        Some(
            Piece::NonTam2Piece {
                prof: Profession::Gua2,
                color: Color::Huok2,
                side: AbsoluteSide::IASide,
            },
        ),
    );
    board.put(
        Coord(Row::AU, Column::M),
        Some(
            Piece::NonTam2Piece {
                prof: Profession::Gua2,
                color: Color::Kok1,
                side: AbsoluteSide::IASide,
            },
        ),
    );
    board.put(
        Coord(Row::IA, Column::C),
        Some(
            Piece::NonTam2Piece {
                prof: Profession::Kaun1,
                color: Color::Huok2,
                side: AbsoluteSide::IASide,
            },
        ),
    );
    board.put(
        Coord(Row::IA, Column::N),
        Some(
            Piece::NonTam2Piece {
                prof: Profession::Kaun1,
                color: Color::Kok1,
                side: AbsoluteSide::IASide,
            },
        ),
    );
    board.put(
        Coord(Row::AU, Column::T),
        Some(
            Piece::NonTam2Piece {
                prof: Profession::Dau2,
                color: Color::Huok2,
                side: AbsoluteSide::IASide,
            },
        ),
    );
    board.put(
        Coord(Row::AU, Column::X),
        Some(
            Piece::NonTam2Piece {
                prof: Profession::Dau2,
                color: Color::Kok1,
                side: AbsoluteSide::IASide,
            },
        ),
    );
    board.put(
        Coord(Row::IA, Column::M),
        Some(
            Piece::NonTam2Piece {
                prof: Profession::Maun1,
                color: Color::Huok2,
                side: AbsoluteSide::IASide,
            },
        ),
    );
    board.put(
        Coord(Row::IA, Column::L),
        Some(
            Piece::NonTam2Piece {
                prof: Profession::Maun1,
                color: Color::Kok1,
                side: AbsoluteSide::IASide,
            },
        ),
    );
    board.put(
        Coord(Row::IA, Column::P),
        Some(
            Piece::NonTam2Piece {
                prof: Profession::Kua2,
                color: Color::Huok2,
                side: AbsoluteSide::IASide,
            },
        ),
    );
    board.put(
        Coord(Row::AU, Column::P),
        Some(
            Piece::NonTam2Piece {
                prof: Profession::Tuk2,
                color: Color::Kok1,
                side: AbsoluteSide::IASide,
            },
        ),
    );
    board.put(
        Coord(Row::IA, Column::X),
        Some(
            Piece::NonTam2Piece {
                prof: Profession::Uai1,
                color: Color::Huok2,
                side: AbsoluteSide::IASide,
            },
        ),
    );
    board.put(
        Coord(Row::IA, Column::T),
        Some(
            Piece::NonTam2Piece {
                prof: Profession::Uai1,
                color: Color::Kok1,
                side: AbsoluteSide::IASide,
            },
        ),
    );
    board.put(
        Coord(Row::IA, Column::Z),
        Some(
            Piece::NonTam2Piece {
                prof: Profession::Io,
                color: Color::Huok2,
                side: AbsoluteSide::IASide,
            },
        ),
    );
    board.put(
        Coord(Row::IA, Column::K),
        Some(
            Piece::NonTam2Piece {
                prof: Profession::Kua2,
                color: Color::Kok1,
                side: AbsoluteSide::IASide,
            },
        ),
    );
    board.put(
        Coord(Row::AU, Column::K),
        Some(
            Piece::NonTam2Piece {
                prof: Profession::Tuk2,
                color: Color::Huok2,
                side: AbsoluteSide::IASide,
            },
        ),
    );
    board.put(
        Coord(Row::I, Column::Z),
        Some(
            Piece::NonTam2Piece {
                prof: Profession::Nuak1,
                color: Color::Kok1,
                side: AbsoluteSide::ASide,
            },
        ),
    );
    board.put(
        Coord(Row::I, Column::K),
        Some(
            Piece::NonTam2Piece {
                prof: Profession::Kauk2,
                color: Color::Huok2,
                side: AbsoluteSide::ASide,
            },
        ),
    );
    board.put(
        Coord(Row::I, Column::N),
        Some(
            Piece::NonTam2Piece {
                prof: Profession::Kauk2,
                color: Color::Huok2,
                side: AbsoluteSide::ASide,
            },
        ),
    );
    board.put(
        Coord(Row::I, Column::C),
        Some(
            Piece::NonTam2Piece {
                prof: Profession::Kauk2,
                color: Color::Huok2,
                side: AbsoluteSide::ASide,
            },
        ),
    );
    board.put(
        Coord(Row::I, Column::P),
        Some(
            Piece::NonTam2Piece {
                prof: Profession::Kauk2,
                color: Color::Huok2,
                side: AbsoluteSide::ASide,
            },
        ),
    );
    board.put(
        Coord(Row::I, Column::L),
        Some(
            Piece::NonTam2Piece {
                prof: Profession::Kauk2,
                color: Color::Kok1,
                side: AbsoluteSide::ASide,
            },
        ),
    );
    board.put(
        Coord(Row::I, Column::T),
        Some(
            Piece::NonTam2Piece {
                prof: Profession::Kauk2,
                color: Color::Kok1,
                side: AbsoluteSide::ASide,
            },
        ),
    );
    board.put(
        Coord(Row::I, Column::X),
        Some(
            Piece::NonTam2Piece {
                prof: Profession::Kauk2,
                color: Color::Kok1,
                side: AbsoluteSide::ASide,
            },
        ),
    );
    board.put(
        Coord(Row::I, Column::M),
        Some(
            Piece::NonTam2Piece {
                prof: Profession::Kauk2,
                color: Color::Kok1,
                side: AbsoluteSide::ASide,
            },
        ),
    );
    board.put(
        Coord(Row::E, Column::M),
        Some(
            Piece::NonTam2Piece {
                prof: Profession::Gua2,
                color: Color::Huok2,
                side: AbsoluteSide::ASide,
            },
        ),
    );
    board.put(
        Coord(Row::E, Column::L),
        Some(
            Piece::NonTam2Piece {
                prof: Profession::Gua2,
                color: Color::Kok1,
                side: AbsoluteSide::ASide,
            },
        ),
    );
    board.put(
        Coord(Row::A, Column::N),
        Some(
            Piece::NonTam2Piece {
                prof: Profession::Kaun1,
                color: Color::Huok2,
                side: AbsoluteSide::ASide,
            },
        ),
    );
    board.put(
        Coord(Row::A, Column::C),
        Some(
            Piece::NonTam2Piece {
                prof: Profession::Kaun1,
                color: Color::Kok1,
                side: AbsoluteSide::ASide,
            },
        ),
    );
    board.put(
        Coord(Row::E, Column::X),
        Some(
            Piece::NonTam2Piece {
                prof: Profession::Dau2,
                color: Color::Huok2,
                side: AbsoluteSide::ASide,
            },
        ),
    );
    board.put(
        Coord(Row::E, Column::T),
        Some(
            Piece::NonTam2Piece {
                prof: Profession::Dau2,
                color: Color::Kok1,
                side: AbsoluteSide::ASide,
            },
        ),
    );
    board.put(
        Coord(Row::A, Column::L),
        Some(
            Piece::NonTam2Piece {
                prof: Profession::Maun1,
                color: Color::Huok2,
                side: AbsoluteSide::ASide,
            },
        ),
    );
    board.put(
        Coord(Row::A, Column::M),
        Some(
            Piece::NonTam2Piece {
                prof: Profession::Maun1,
                color: Color::Kok1,
                side: AbsoluteSide::ASide,
            },
        ),
    );
    board.put(
        Coord(Row::A, Column::K),
        Some(
            Piece::NonTam2Piece {
                prof: Profession::Kua2,
                color: Color::Huok2,
                side: AbsoluteSide::ASide,
            },
        ),
    );
    board.put(
        Coord(Row::E, Column::P),
        Some(
            Piece::NonTam2Piece {
                prof: Profession::Tuk2,
                color: Color::Huok2,
                side: AbsoluteSide::ASide,
            },
        ),
    );
    board.put(
        Coord(Row::A, Column::P),
        Some(
            Piece::NonTam2Piece {
                prof: Profession::Kua2,
                color: Color::Kok1,
                side: AbsoluteSide::ASide,
            },
        ),
    );
    board.put(
        Coord(Row::E, Column::K),
        Some(
            Piece::NonTam2Piece {
                prof: Profession::Tuk2,
                color: Color::Kok1,
                side: AbsoluteSide::ASide,
            },
        ),
    );
    board.put(
        Coord(Row::A, Column::T),
        Some(
            Piece::NonTam2Piece {
                prof: Profession::Uai1,
                color: Color::Huok2,
                side: AbsoluteSide::ASide,
            },
        ),
    );
    board.put(
        Coord(Row::A, Column::X),
        Some(
            Piece::NonTam2Piece {
                prof: Profession::Uai1,
                color: Color::Kok1,
                side: AbsoluteSide::ASide,
            },
        ),
    );
    board.put(
        Coord(Row::A, Column::Z),
        Some(
            Piece::NonTam2Piece {
                prof: Profession::Io,
                color: Color::Kok1,
                side: AbsoluteSide::ASide,
            },
        ),
    );
    proof {
        assert forall|i: int, j: int| 0 <= i < 9 && 0 <= j < 9 implies board@.get(
            Coord(Row::at(i), Column::at(j)),
        ) == spec_yhuap_initial_board().get(Coord(Row::at(i), Column::at(j))) by {}
        lemma_equal_on_all_squares(board@, spec_yhuap_initial_board());
    }
    board
}

/// The field: a board and the hop1zuo1 (the pieces in hand) of each side.
#[derive(Debug)]
pub struct Field {
    /// the board
    pub board: Board,
    /// the hop1zuo1 of ASide
    pub a_side_hop1zuo1: Vec<ColorAndProf>,
    /// the hop1zuo1 of IASide
    pub ia_side_hop1zuo1: Vec<ColorAndProf>,
}

/// A field as a value: the occupied squares with their pieces, and each
/// hop1zuo1 in the order in which its pieces came.
#[verifier::ext_equal]
pub struct FieldView {
    /// the occupied squares, each with its piece
    pub board: Map<Coord, Piece>,
    /// the hop1zuo1 of ASide
    pub a_side_hop1zuo1: Seq<ColorAndProf>,
    /// the hop1zuo1 of IASide
    pub ia_side_hop1zuo1: Seq<ColorAndProf>,
}

impl View for Field {
    type V = FieldView;

    open spec fn view(&self) -> FieldView {
        FieldView {
            board: self.board@,
            a_side_hop1zuo1: self.a_side_hop1zuo1@,
            ia_side_hop1zuo1: self.ia_side_hop1zuo1@,
        }
    }
}

impl FieldView {
    /// The hop1zuo1 of a side.
    pub open spec fn hop1zuo1_of(self, side: AbsoluteSide) -> Seq<ColorAndProf> {
        match side {
            AbsoluteSide::ASide => self.a_side_hop1zuo1,
            AbsoluteSide::IASide => self.ia_side_hop1zuo1,
        }
    }

    /// The field with the hop1zuo1 of one side replaced.
    pub open spec fn with_hop1zuo1(
        self,
        side: AbsoluteSide,
        hop1zuo1: Seq<ColorAndProf>,
    ) -> FieldView {
        match side {
            AbsoluteSide::ASide => FieldView { a_side_hop1zuo1: hop1zuo1, ..self },
            AbsoluteSide::IASide => FieldView { ia_side_hop1zuo1: hop1zuo1, ..self },
        }
    }

    /// The field with the board replaced.
    pub open spec fn with_board(self, board: Map<Coord, Piece>) -> FieldView {
        FieldView { board, ..self }
    }

    /// What becomes of the field when `whose_turn` moves the piece on `src`
    /// to `dest`.
    ///
    /// The piece has to be there, not to be Tam2, and to belong to
    /// `whose_turn`. A piece that stands on `dest` is taken: it must not be
    /// Tam2 nor belong to `whose_turn`, it leaves the board, and its colour
    /// and profession come last in the hop1zuo1 of `whose_turn`.
    pub open spec fn move_piece(self, src: Coord, dest: Coord, whose_turn: AbsoluteSide) -> Result<
        FieldView,
        MoveError,
    > {
        match self.board.get(src) {
            None => Err(MoveError::EmptySource),
            Some(Piece::Tam2) => Err(MoveError::SourceIsNeutral),
            Some(Piece::NonTam2Piece { color, prof, side }) => if side != whose_turn {
                Err(MoveError::NotOwner)
            } else {
                let moved = self.board.remove(src).insert(
                    dest,
                    Piece::NonTam2Piece { color, prof, side },
                );
                match self.board.get(dest) {
                    None => Ok(self.with_board(moved)),
                    Some(Piece::Tam2) => Err(MoveError::CannotCaptureNeutral),
                    Some(
                        Piece::NonTam2Piece {
                            color: taken_color,
                            prof: taken_prof,
                            side: taken_side,
                        },
                    ) => if taken_side == whose_turn {
                        Err(MoveError::CannotCaptureOwn)
                    } else {
                        Ok(
                            self.with_board(moved).with_hop1zuo1(
                                whose_turn,
                                self.hop1zuo1_of(whose_turn).push(
                                    ColorAndProf { color: taken_color, prof: taken_prof },
                                ),
                            ),
                        )
                    },
                }
            },
        }
    }

    /// What becomes of the field when `side` takes a piece of the given
    /// colour and profession from its hop1zuo1 and sets it on `dest`.
    ///
    /// There has to be such a piece in the hop1zuo1, and `dest` has to be
    /// empty. The first such piece leaves the hop1zuo1.
    pub open spec fn parachute(
        self,
        color: Color,
        prof: Profession,
        side: AbsoluteSide,
        dest: Coord,
    ) -> Option<FieldView> {
        let wanted = ColorAndProf { color, prof };
        if !self.hop1zuo1_of(side).contains(wanted) || self.board.contains_key(dest) {
            None
        } else {
            Some(
                self.with_board(
                    self.board.insert(dest, Piece::NonTam2Piece { color, prof, side }),
                ).with_hop1zuo1(side, self.hop1zuo1_of(side).remove_value(wanted)),
            )
        }
    }
}

impl vstd::std_specs::cmp::PartialEqSpecImpl for Field {
    open spec fn obeys_eq_spec() -> bool {
        true
    }

    open spec fn eq_spec(&self, other: &Field) -> bool {
        self@ == other@
    }
}

impl PartialEq for Field {
    /// Two fields are equal where the boards are equal and each hop1zuo1
    /// holds the same pieces in the same order.
    fn eq(&self, other: &Field) -> (same: bool) {
        self.board == other.board && same_hop1zuo1(&self.a_side_hop1zuo1, &other.a_side_hop1zuo1)
            && same_hop1zuo1(&self.ia_side_hop1zuo1, &other.ia_side_hop1zuo1)
    }
}

impl Eq for Field {

}

/// Whether two hop1zuo1 hold the same pieces in the same order.
fn same_hop1zuo1(a: &Vec<ColorAndProf>, b: &Vec<ColorAndProf>) -> (same: bool)
    ensures
        same == (a@ == b@),
{
    if a.len() != b.len() {
        return false;
    }
    for i in 0..a.len()
        invariant
            a.len() == b.len(),
            forall|k: int| 0 <= k < i ==> a[k] == b[k],
    {
        if a[i] != b[i] {
            return false;
        }
    }
    assert(a@ =~= b@);
    true
}

/// The place of the first piece of the given colour and profession in a
/// hop1zuo1, if it holds one.
fn position(hop1zuo1: &Vec<ColorAndProf>, wanted: ColorAndProf) -> (index: Option<usize>)
    ensures
        match index {
            Some(i) => {
                &&& i < hop1zuo1.len()
                &&& hop1zuo1@.contains(wanted)
                &&& hop1zuo1@.index_of_first(wanted) == Some(i as int)
            },
            None => !hop1zuo1@.contains(wanted),
        },
{
    for i in 0..hop1zuo1.len()
        invariant
            forall|k: int| 0 <= k < i ==> hop1zuo1[k] != wanted,
    {
        if hop1zuo1[i] == wanted {
            proof {
                hop1zuo1@.index_of_first_ensures(wanted);
            }
            return Some(i);
        }
    }
    None
}

impl Clone for Field {
    fn clone(&self) -> (copy: Field)
        ensures
            copy@ == self@,
    {
        Field {
            board: self.board.clone(),
            a_side_hop1zuo1: self.a_side_hop1zuo1.clone(),
            ia_side_hop1zuo1: self.ia_side_hop1zuo1.clone(),
        }
    }
}

impl Field {
    /// Adds a piece to the hop1zuo1 of a side; it comes last.
    pub fn insert_nontam_piece_into_hop1zuo1(
        &mut self,
        color: Color,
        prof: Profession,
        side: AbsoluteSide,
    )
        ensures
            final(self)@ == old(self)@.with_hop1zuo1(
                side,
                old(self)@.hop1zuo1_of(side).push(ColorAndProf { color, prof }),
            ),
    {
        match side {
            AbsoluteSide::ASide => self.a_side_hop1zuo1.push(ColorAndProf { color, prof }),
            AbsoluteSide::IASide => self.ia_side_hop1zuo1.push(ColorAndProf { color, prof }),
        }
    }

    /// Moves the piece on `src` to `dest` for the player `whose_turn`, and
    /// takes the piece that stood on `dest`, if any, into that player's
    /// hop1zuo1. The field itself stays as it is; the result is a new one.
    pub fn move_nontam_piece_from_src_to_dest_while_taking_opponent_piece_if_needed(
        &self,
        src: Coord,
        dest: Coord,
        whose_turn: AbsoluteSide,
    ) -> (result: Result<Field, MoveError>)
        ensures
            match result {
                Ok(next) => self@.move_piece(src, dest, whose_turn) == Ok::<FieldView, MoveError>(
                    next@,
                ),
                Err(e) => self@.move_piece(src, dest, whose_turn) == Err::<FieldView, MoveError>(e),
            },
    {
        let src_piece = match self.board.peek(src) {
            None => return Err(MoveError::EmptySource),
            Some(piece) => piece,
        };

        let side = match src_piece {
            Piece::Tam2 => return Err(MoveError::SourceIsNeutral),
            Piece::NonTam2Piece { side, .. } => side,
        };

        if whose_turn != side {
            return Err(MoveError::NotOwner);
        }

        let maybe_captured_piece = self.board.peek(dest);
        let mut new_self = self.clone();
        new_self.board.pop(src);
        new_self.board.put(dest, Some(src_piece));

        if let Some(captured_piece) = maybe_captured_piece {
            match captured_piece {
                Piece::Tam2 => return Err(MoveError::CannotCaptureNeutral),
                Piece::NonTam2Piece {
                    color: captured_piece_color,
                    prof: captured_piece_prof,
                    side: captured_piece_side,
                } => {
                    if captured_piece_side == whose_turn {
                        return Err(MoveError::CannotCaptureOwn);
                    }
                    new_self.insert_nontam_piece_into_hop1zuo1(
                        captured_piece_color,
                        captured_piece_prof,
                        whose_turn,
                    );
                },
            }
        }
        Ok(new_self)
    }

    /// Takes a piece of the given colour and profession from the hop1zuo1
    /// of `side` and sets it on `to`. Returns `None` where the hop1zuo1 holds
    /// no such piece or `to` is occupied. The field itself stays as it is.
    #[must_use]
    pub fn search_from_hop1zuo1_and_parachute_at(
        &self,
        color: Color,
        prof: Profession,
        side: AbsoluteSide,
        to: Coord,
    ) -> (result: Option<Field>)
        ensures
            match result {
                Some(next) => self@.parachute(color, prof, side, to) == Some(next@),
                None => self@.parachute(color, prof, side, to) is None,
            },
    {
        match side {
            AbsoluteSide::ASide => {
                let mut new_self = self.clone();
                let index = position(&new_self.a_side_hop1zuo1, ColorAndProf { color, prof })?;
                new_self.a_side_hop1zuo1.remove(index);

                if self.board.peek(to).is_some() {
                    return None;
                }
                new_self.board.put(to, Some(Piece::NonTam2Piece { color, prof, side }));

                Some(new_self)
            },
            AbsoluteSide::IASide => {
                let mut new_self = self.clone();
                let index = position(&new_self.ia_side_hop1zuo1, ColorAndProf { color, prof })?;
                new_self.ia_side_hop1zuo1.remove(index);

                if self.board.peek(to).is_some() {
                    return None;
                }
                new_self.board.put(to, Some(Piece::NonTam2Piece { color, prof, side }));

                Some(new_self)
            },
        }
    }

    /// The field at the start of a game: the initial board and nothing in
    /// either hop1zuo1.
    #[must_use]
    pub fn yhuap_initial() -> (field: Field)
        ensures
            field@ == (FieldView {
                board: spec_yhuap_initial_board(),
                a_side_hop1zuo1: Seq::empty(),
                ia_side_hop1zuo1: Seq::empty(),
            }),
    {
        Field {
            board: yhuap_initial_board(),
            a_side_hop1zuo1: Vec::new(),
            ia_side_hop1zuo1: Vec::new(),
        }
    }

    /// The board of the field.
    pub fn as_board(&self) -> (board: &Board)
        ensures
            *board == self.board,
    {
        &self.board
    }

    /// The board of the field, to be changed in place.
    pub fn as_board_mut(&mut self) -> (board: &mut Board)
        ensures
            *board == old(self).board,
            *final(self) == (Field { board: *final(board), ..*old(self) }),
    {
        &mut self.board
    }
}

/// The distance from a square to another is the distance back, and the
/// distance from a square to itself is 0.
pub proof fn lemma_distance_is_symmetric(a: Coord, b: Coord)
    ensures
        spec_distance(a, b) == spec_distance(b, a),
        spec_distance(a, a) == 0,
        0 <= spec_distance(a, b) <= 8,
        spec_distance(a, b) == 0 <==> a == b,
{
}

/// The distance between two squares is the same in absolute terms and in
/// relative terms, whichever player looks.
pub proof fn lemma_distance_is_the_same_for_both(a: Coord, b: Coord, p: Perspective)
    ensures
        spec_distance(a, b) == relative::spec_distance(
            spec_to_relative_coord(a, p),
            spec_to_relative_coord(b, p),
        ),
{
}

/// The water is the same nine squares in absolute terms and in relative
/// terms, whichever player looks.
pub proof fn lemma_water_is_the_same_for_both(c: Coord, p: Perspective)
    ensures
        spec_is_water(c) == relative::spec_is_water(spec_to_relative_coord(c, p)),
{
}

/// Nothing lies in a direction from the square itself, and what lies in the
/// same direction does so whichever of the two is named first.
pub proof fn lemma_same_direction_properties(origin: Coord, a: Coord, b: Coord)
    ensures
        !spec_same_direction(origin, origin, b),
        !spec_same_direction(origin, a, origin),
        spec_same_direction(origin, a, b) == spec_same_direction(origin, b, a),
{
    let a_u = a.0.index() - origin.0.index();
    let a_v = a.1.index() - origin.1.index();
    let b_u = b.0.index() - origin.0.index();
    let b_v = b.1.index() - origin.1.index();
    assert(a_u * b_u == b_u * a_u && a_v * b_v == b_v * a_v) by (nonlinear_arith);
    assert(0 * b_u + 0 * b_v == 0 && a_u * 0 + a_v * 0 == 0) by (nonlinear_arith);
}

/// The squares of a board that hold Tam2.
pub open spec fn tam2_squares(board: Map<Coord, Piece>) -> Set<Coord> {
    Set::new(|c: Coord| board.contains_key(c) && board[c] is Tam2)
}

/// A board holds finitely many pieces, at most one for each of the 81
/// squares.
pub proof fn lemma_board_is_finite(board: Map<Coord, Piece>)
    ensures
        board.dom().finite(),
        board.dom().len() <= 81,
{
    let numbers = vstd::set_lib::set_int_range(0, 81);
    let square = |k: int| Coord(Row::at(k / 9), Column::at(k % 9));
    let squares = numbers.map(square);
    vstd::set_lib::lemma_int_range(0, 81);
    vstd::set_lib::lemma_map_size_bound(numbers, squares, square);
    assert forall|c: Coord| board.dom().contains(c) implies squares.contains(c) by {
        assert(numbers.contains(c.number()));
        assert(square(c.number()) == c);
    }
    vstd::set_lib::lemma_len_subset(board.dom(), squares);
}

impl FieldView {
    /// The field after a run of attempts to move a piece, each a source, a
    /// destination and the player who moves. An attempt that is refused
    /// leaves the field as it is.
    pub open spec fn after_moves(self, moves: Seq<(Coord, Coord, AbsoluteSide)>) -> FieldView
        decreases moves.len(),
    {
        if moves.len() == 0 {
            self
        } else {
            let before = self.after_moves(moves.drop_last());
            match before.move_piece(moves.last().0, moves.last().1, moves.last().2) {
                Ok(next) => next,
                Err(_) => before,
            }
        }
    }
}

/// A move that takes a piece leaves one piece less on the board and one more
/// in the hop1zuo1 of the player who moved: the colour and profession of the
/// piece that was taken, which come last. The other hop1zuo1 stays as it is.
pub proof fn lemma_capture_conservation(
    field: FieldView,
    src: Coord,
    dest: Coord,
    whose_turn: AbsoluteSide,
)
    requires
        field.move_piece(src, dest, whose_turn) is Ok,
        field.board.contains_key(dest),
    ensures
        ({
            let next = field.move_piece(src, dest, whose_turn)->Ok_0;
            &&& next.board.dom().len() == field.board.dom().len() - 1
            &&& next.board == field.board.remove(src).insert(dest, field.board[src])
            &&& field.board[dest] matches Piece::NonTam2Piece { color, prof, side }
            &&& side != whose_turn
            &&& next.hop1zuo1_of(whose_turn) == field.hop1zuo1_of(whose_turn).push(
                ColorAndProf { color, prof },
            )
            &&& next.hop1zuo1_of(whose_turn).len() == field.hop1zuo1_of(whose_turn).len() + 1
            &&& next.hop1zuo1_of(side) == field.hop1zuo1_of(side)
        }),
{
    lemma_board_is_finite(field.board);
    let next = field.move_piece(src, dest, whose_turn)->Ok_0;
    assert(src != dest);
    assert(next.board.dom() =~= field.board.dom().remove(src));
}

/// A move onto an empty square leaves as many pieces on the board as there
/// were, and both hop1zuo1 as they were.
pub proof fn lemma_move_without_capture(
    field: FieldView,
    src: Coord,
    dest: Coord,
    whose_turn: AbsoluteSide,
)
    requires
        field.move_piece(src, dest, whose_turn) is Ok,
        !field.board.contains_key(dest),
    ensures
        ({
            let next = field.move_piece(src, dest, whose_turn)->Ok_0;
            &&& next.board.dom().len() == field.board.dom().len()
            &&& next.board == field.board.remove(src).insert(dest, field.board[src])
            &&& !next.board.contains_key(src)
            &&& next.board.get(dest) == field.board.get(src)
            &&& next.a_side_hop1zuo1 == field.a_side_hop1zuo1
            &&& next.ia_side_hop1zuo1 == field.ia_side_hop1zuo1
        }),
{
    lemma_board_is_finite(field.board);
    let next = field.move_piece(src, dest, whose_turn)->Ok_0;
    assert(next.board.dom() =~= field.board.dom().remove(src).insert(dest));
}

/// A player never takes a piece of their own: where a piece of the player
/// who moves stands on the destination, no move is made, and the reason
/// given is `CannotCaptureOwn` whenever the source holds a piece of that
/// player too.
pub proof fn lemma_no_self_capture(
    field: FieldView,
    src: Coord,
    dest: Coord,
    whose_turn: AbsoluteSide,
)
    requires
        field.board.get(dest) matches Some(Piece::NonTam2Piece { side, .. }) && side == whose_turn,
    ensures
        field.move_piece(src, dest, whose_turn) is Err,
        (field.board.get(src) matches Some(Piece::NonTam2Piece { side, .. }) && side == whose_turn)
            ==> field.move_piece(src, dest, whose_turn) == Err::<FieldView, MoveError>(
            MoveError::CannotCaptureOwn,
        ),
{
}

/// A move neither sets Tam2 on the board nor takes it off nor moves it: the
/// squares that hold Tam2 after the move are those that held it before.
pub proof fn lemma_move_keeps_tam2(
    field: FieldView,
    src: Coord,
    dest: Coord,
    whose_turn: AbsoluteSide,
)
    requires
        field.move_piece(src, dest, whose_turn) is Ok,
    ensures
        tam2_squares(field.move_piece(src, dest, whose_turn)->Ok_0.board) == tam2_squares(
            field.board,
        ),
{
    let next = field.move_piece(src, dest, whose_turn)->Ok_0;
    assert(tam2_squares(next.board) =~= tam2_squares(field.board));
}

/// Whatever moves are tried, one after another, the squares that hold Tam2
/// stay the same: a board with exactly one Tam2 keeps exactly one.
pub proof fn lemma_moves_keep_tam2(field: FieldView, moves: Seq<(Coord, Coord, AbsoluteSide)>)
    ensures
        tam2_squares(field.after_moves(moves).board) == tam2_squares(field.board),
        tam2_squares(field.board).len() == 1 ==> tam2_squares(
            field.after_moves(moves).board,
        ).len() == 1,
    decreases moves.len(),
{
    if moves.len() > 0 {
        lemma_moves_keep_tam2(field, moves.drop_last());
        let before = field.after_moves(moves.drop_last());
        if before.move_piece(moves.last().0, moves.last().1, moves.last().2) is Ok {
            lemma_move_keeps_tam2(before, moves.last().0, moves.last().1, moves.last().2);
        }
    }
}

/// Setting a piece from a hop1zuo1 on the board leaves one piece more on the
/// board and one less in that hop1zuo1; the other hop1zuo1 and the squares
/// that hold Tam2 stay as they are.
pub proof fn lemma_parachute_conservation(
    field: FieldView,
    color: Color,
    prof: Profession,
    side: AbsoluteSide,
    dest: Coord,
)
    requires
        field.parachute(color, prof, side, dest) is Some,
    ensures
        ({
            let next = field.parachute(color, prof, side, dest)->0;
            &&& next.board.dom().len() == field.board.dom().len() + 1
            &&& next.hop1zuo1_of(side).len() == field.hop1zuo1_of(side).len() - 1
            &&& next.hop1zuo1_of(side).to_multiset() == field.hop1zuo1_of(
                side,
            ).to_multiset().remove(ColorAndProf { color, prof })
            &&& forall|other: AbsoluteSide|
                other != side ==> next.hop1zuo1_of(other) == field.hop1zuo1_of(other)
            &&& tam2_squares(next.board) == tam2_squares(field.board)
        }),
{
    lemma_board_is_finite(field.board);
    let next = field.parachute(color, prof, side, dest)->0;
    let wanted = ColorAndProf { color, prof };
    let hand = field.hop1zuo1_of(side);
    hand.index_of_first_ensures(wanted);
    let i = hand.index_of_first(wanted)->0;
    vstd::seq_lib::to_multiset_remove(hand, i);
    assert(tam2_squares(next.board) =~= tam2_squares(field.board));
}

/// A game starts with exactly one Tam2, on ZO, with the black king on ZIA
/// for IASide and the red king on ZA for ASide.
pub proof fn lemma_initial_board_has_one_tam2()
    ensures
        tam2_squares(spec_yhuap_initial_board()) == set![Coord(Row::O, Column::Z)],
        tam2_squares(spec_yhuap_initial_board()).len() == 1,
        spec_yhuap_initial_board().get(Coord(Row::IA, Column::Z)) == Some(
            Piece::NonTam2Piece {
                color: Color::Huok2,
                prof: Profession::Io,
                side: AbsoluteSide::IASide,
            },
        ),
        spec_yhuap_initial_board().get(Coord(Row::A, Column::Z)) == Some(
            Piece::NonTam2Piece {
                color: Color::Kok1,
                prof: Profession::Io,
                side: AbsoluteSide::ASide,
            },
        ),
{
    assert(tam2_squares(spec_yhuap_initial_board()) =~= set![Coord(Row::O, Column::Z)]);
}

/// The squares of a board that hold a piece of a side.
pub open spec fn squares_of(board: Map<Coord, Piece>, side: AbsoluteSide) -> Set<Coord> {
    Set::new(
        |c: Coord|
            board.contains_key(c) && (board[c] matches Piece::NonTam2Piece { side: owner, .. }
                && owner == side),
    )
}

/// A game starts with 24 pieces of each side, on the three rows nearest to
/// the player.
pub proof fn lemma_initial_board_has_24_pieces_a_side()
    ensures
        squares_of(spec_yhuap_initial_board(), AbsoluteSide::ASide).len() == 24,
        squares_of(spec_yhuap_initial_board(), AbsoluteSide::IASide).len() == 24,
        forall|c: Coord| #[trigger]
            squares_of(spec_yhuap_initial_board(), AbsoluteSide::ASide).contains(c)
                ==> c.0.index() <= 2,
        forall|c: Coord| #[trigger]
            squares_of(spec_yhuap_initial_board(), AbsoluteSide::IASide).contains(c)
                ==> c.0.index() >= 6,
{
    assert(squares_of(spec_yhuap_initial_board(), AbsoluteSide::ASide) =~= set![
        Coord(Row::A, Column::K),
        Coord(Row::A, Column::L),
        Coord(Row::A, Column::N),
        Coord(Row::A, Column::T),
        Coord(Row::A, Column::Z),
        Coord(Row::A, Column::X),
        Coord(Row::A, Column::C),
        Coord(Row::A, Column::M),
        Coord(Row::A, Column::P),
        Coord(Row::E, Column::K),
        Coord(Row::E, Column::L),
        Coord(Row::E, Column::T),
        Coord(Row::E, Column::X),
        Coord(Row::E, Column::M),
        Coord(Row::E, Column::P),
        Coord(Row::I, Column::K),
        Coord(Row::I, Column::L),
        Coord(Row::I, Column::N),
        Coord(Row::I, Column::T),
        Coord(Row::I, Column::Z),
        Coord(Row::I, Column::X),
        Coord(Row::I, Column::C),
        Coord(Row::I, Column::M),
        Coord(Row::I, Column::P)
    ]);
    assert(squares_of(spec_yhuap_initial_board(), AbsoluteSide::IASide) =~= set![
        Coord(Row::AI, Column::K),
        Coord(Row::AI, Column::L),
        Coord(Row::AI, Column::N),
        Coord(Row::AI, Column::T),
        Coord(Row::AI, Column::Z),
        Coord(Row::AI, Column::X),
        Coord(Row::AI, Column::C),
        Coord(Row::AI, Column::M),
        Coord(Row::AI, Column::P),
        Coord(Row::AU, Column::K),
        Coord(Row::AU, Column::L),
        Coord(Row::AU, Column::T),
        Coord(Row::AU, Column::X),
        Coord(Row::AU, Column::M),
        Coord(Row::AU, Column::P),
        Coord(Row::IA, Column::K),
        Coord(Row::IA, Column::L),
        Coord(Row::IA, Column::N),
        Coord(Row::IA, Column::T),
        Coord(Row::IA, Column::Z),
        Coord(Row::IA, Column::X),
        Coord(Row::IA, Column::C),
        Coord(Row::IA, Column::M),
        Coord(Row::IA, Column::P)
    ]);
}

} // verus!

use cetkaik_naive_representation::absolute;
use cetkaik_naive_representation::absolute::{Column, Row};
use cetkaik_naive_representation::fundamental::{AbsoluteSide, Color, Profession};
use cetkaik_naive_representation::perspective::{
    to_absolute_board, to_absolute_coord, to_absolute_piece, to_relative_board, Perspective,
};
use cetkaik_naive_representation::relative;
use cetkaik_naive_representation::relative::Side;

fn red_pawn(side: AbsoluteSide) -> absolute::Piece {
    absolute::Piece::NonTam2Piece {
        color: Color::Kok1,
        prof: Profession::Kauk2,
        side,
    }
}

fn empty_relative_board() -> relative::Board {
    relative::Board([[None; 9]; 9])
}

fn count_absolute(board: &absolute::Board) -> usize {
    let mut n = 0;
    for i in 0..9 {
        for j in 0..9 {
            let c = to_absolute_coord([i, j], Perspective::IaIsDownAndPointsUpward);
            if board.peek(c).is_some() {
                n += 1;
            }
        }
    }
    n
}

#[test]
fn new_absolute_board_is_empty() {
    let board = absolute::Board::new();
    assert_eq!(count_absolute(&board), 0);
    board.assert_empty(absolute::Coord(Row::O, Column::Z));
}

#[test]
fn absolute_put_then_peek_then_pop() {
    let c = absolute::Coord(Row::E, Column::T);
    let d = absolute::Coord(Row::AI, Column::C);
    let mut board = absolute::Board::new();
    board.put(c, Some(red_pawn(AbsoluteSide::ASide)));
    board.put(d, Some(absolute::Piece::Tam2));
    assert_eq!(board.peek(c), Some(red_pawn(AbsoluteSide::ASide)));
    assert_eq!(board.peek(d), Some(absolute::Piece::Tam2));
    board.assert_occupied(c);
    assert_eq!(count_absolute(&board), 2);
    assert_eq!(board.pop(c), Some(red_pawn(AbsoluteSide::ASide)));
    assert_eq!(board.peek(c), None);
    assert_eq!(board.pop(c), None);
    assert_eq!(board.peek(d), Some(absolute::Piece::Tam2));
    assert_eq!(count_absolute(&board), 1);
}

#[test]
fn absolute_put_overwrites_and_clears() {
    let c = absolute::Coord(Row::IA, Column::P);
    let mut board = absolute::Board::new();
    board.put(c, Some(red_pawn(AbsoluteSide::ASide)));
    board.put(c, Some(red_pawn(AbsoluteSide::IASide)));
    assert_eq!(board.peek(c), Some(red_pawn(AbsoluteSide::IASide)));
    assert_eq!(count_absolute(&board), 1);
    board.put(c, None);
    assert_eq!(board.peek(c), None);
    board.put(c, None);
    assert_eq!(count_absolute(&board), 0);
}

#[test]
fn absolute_boards_compare_by_what_they_hold() {
    let c = absolute::Coord(Row::A, Column::K);
    let d = absolute::Coord(Row::IA, Column::P);
    let mut a = absolute::Board::new();
    let mut b = absolute::Board::new();
    assert_eq!(a, b);
    a.put(c, Some(absolute::Piece::Tam2));
    assert_ne!(a, b);
    b.put(d, Some(red_pawn(AbsoluteSide::ASide)));
    b.put(c, Some(absolute::Piece::Tam2));
    assert_ne!(a, b);
    a.put(d, Some(red_pawn(AbsoluteSide::ASide)));
    assert_eq!(a, b);
    b.put(d, Some(red_pawn(AbsoluteSide::IASide)));
    assert_ne!(a, b);
    let copy = a.clone();
    assert_eq!(copy, a);
    a.pop(c);
    assert_ne!(copy, a);
}

#[test]
fn relative_put_then_peek_then_pop() {
    let mut board = empty_relative_board();
    let piece = relative::Piece::NonTam2Piece {
        color: Color::Huok2,
        prof: Profession::Dau2,
        side: Side::Upward,
    };
    board.put([3, 5], Some(piece));
    assert_eq!(board.peek([3, 5]), Some(piece));
    assert_eq!(board.0[3][5], Some(piece));
    assert_eq!(board.peek([5, 3]), None);
    board.assert_occupied([3, 5]);
    board.assert_empty([5, 3]);
    assert_eq!(board.pop([3, 5]), Some(piece));
    assert_eq!(board.pop([3, 5]), None);
    assert_eq!(board, empty_relative_board());
    board.put([0, 0], Some(relative::Piece::Tam2));
    board.put([0, 0], None);
    assert_eq!(board, empty_relative_board());
}

#[test]
fn relative_boards_compare_square_by_square() {
    let mut a = empty_relative_board();
    let b = empty_relative_board();
    assert!(a == b);
    a.put([8, 8], Some(relative::Piece::Tam2));
    assert!(a != b);
    let mut c = b;
    c.put([8, 8], Some(relative::Piece::Tam2));
    assert!(a == c);
}

#[test]
fn rotate_board_moves_and_flips_every_piece() {
    let mut board = empty_relative_board();
    board.put(
        [0, 1],
        Some(relative::Piece::NonTam2Piece {
            color: Color::Kok1,
            prof: Profession::Gua2,
            side: Side::Downward,
        }),
    );
    board.put([4, 4], Some(relative::Piece::Tam2));
    board.put([2, 7], Some(relative::Piece::Tam2));
    let rotated = relative::rotate_board(&board);
    let mut expected = empty_relative_board();
    expected.put(
        [8, 7],
        Some(relative::Piece::NonTam2Piece {
            color: Color::Kok1,
            prof: Profession::Gua2,
            side: Side::Upward,
        }),
    );
    expected.put([4, 4], Some(relative::Piece::Tam2));
    expected.put([6, 1], Some(relative::Piece::Tam2));
    assert_eq!(rotated, expected);
}

#[test]
fn rotate_board_twice_is_the_identity() {
    let board = relative::yhuap_initial_board_where_black_king_points_upward();
    assert_eq!(relative::rotate_board(&relative::rotate_board(&board)), board);
    let mut other = empty_relative_board();
    other.put([1, 2], Some(relative::Piece::Tam2));
    other.put(
        [7, 0],
        Some(relative::Piece::NonTam2Piece {
            color: Color::Huok2,
            prof: Profession::Io,
            side: Side::Upward,
        }),
    );
    assert_eq!(relative::rotate_board(&relative::rotate_board(&other)), other);
    assert_ne!(relative::rotate_board(&other), other);
}

#[test]
fn initial_absolute_board_known_squares() {
    let board = absolute::yhuap_initial_board();
    assert_eq!(
        board.peek(absolute::Coord(Row::O, Column::Z)),
        Some(absolute::Piece::Tam2)
    );
    assert_eq!(
        board.peek(absolute::Coord(Row::IA, Column::Z)),
        Some(absolute::Piece::NonTam2Piece {
            prof: Profession::Io,
            color: Color::Huok2,
            side: AbsoluteSide::IASide
        })
    );
    assert_eq!(
        board.peek(absolute::Coord(Row::A, Column::Z)),
        Some(absolute::Piece::NonTam2Piece {
            prof: Profession::Io,
            color: Color::Kok1,
            side: AbsoluteSide::ASide
        })
    );
    assert_eq!(
        board.peek(absolute::Coord(Row::AU, Column::P)),
        Some(absolute::Piece::NonTam2Piece {
            prof: Profession::Tuk2,
            color: Color::Kok1,
            side: AbsoluteSide::IASide
        })
    );
    assert_eq!(
        board.peek(absolute::Coord(Row::E, Column::X)),
        Some(absolute::Piece::NonTam2Piece {
            prof: Profession::Dau2,
            color: Color::Huok2,
            side: AbsoluteSide::ASide
        })
    );
    assert_eq!(
        board.peek(absolute::Coord(Row::I, Column::Z)),
        Some(absolute::Piece::NonTam2Piece {
            prof: Profession::Nuak1,
            color: Color::Kok1,
            side: AbsoluteSide::ASide
        })
    );
    assert_eq!(board.peek(absolute::Coord(Row::U, Column::Z)), None);
    assert_eq!(board.peek(absolute::Coord(Row::AU, Column::N)), None);
    assert_eq!(board, absolute::Board::yhuap_initial());
}

#[test]
fn initial_absolute_board_has_24_pieces_a_side_and_one_tam2() {
    let board = absolute::yhuap_initial_board();
    let mut a_side = 0;
    let mut ia_side = 0;
    let mut tam2 = 0;
    for i in 0..9 {
        for j in 0..9 {
            let c = to_absolute_coord([i, j], Perspective::IaIsDownAndPointsUpward);
            match board.peek(c) {
                Some(absolute::Piece::Tam2) => tam2 += 1,
                Some(absolute::Piece::NonTam2Piece { side, .. }) => {
                    if side == AbsoluteSide::ASide {
                        assert!(i <= 2);
                        a_side += 1;
                    } else {
                        assert!(i >= 6);
                        ia_side += 1;
                    }
                }
                None => {}
            }
        }
    }
    assert_eq!((a_side, ia_side, tam2), (24, 24, 1));
}

#[test]
fn initial_relative_board_known_squares() {
    let board = relative::yhuap_initial_board_where_black_king_points_upward();
    assert_eq!(board.peek([4, 4]), Some(relative::Piece::Tam2));
    assert_eq!(
        board.peek([8, 4]),
        Some(relative::Piece::NonTam2Piece {
            color: Color::Huok2,
            prof: Profession::Io,
            side: Side::Upward
        })
    );
    assert_eq!(
        board.peek([0, 4]),
        Some(relative::Piece::NonTam2Piece {
            color: Color::Kok1,
            prof: Profession::Io,
            side: Side::Downward
        })
    );
    assert_eq!(
        board.peek([7, 1]),
        Some(relative::Piece::NonTam2Piece {
            color: Color::Huok2,
            prof: Profession::Gua2,
            side: Side::Upward
        })
    );
    assert_eq!(
        board.peek([2, 3]),
        Some(relative::Piece::NonTam2Piece {
            color: Color::Kok1,
            prof: Profession::Kauk2,
            side: Side::Downward
        })
    );
    assert_eq!(board.peek([1, 2]), None);
    assert_eq!(board.peek([5, 5]), None);
}

#[test]
fn initial_relative_board_with_red_king_upward() {
    let board = relative::yhuap_initial_board_where_red_king_points_upward();
    assert_eq!(board.peek([4, 4]), Some(relative::Piece::Tam2));
    assert_eq!(
        board.peek([8, 4]),
        Some(relative::Piece::NonTam2Piece {
            color: Color::Kok1,
            prof: Profession::Io,
            side: Side::Upward
        })
    );
    assert_eq!(
        board.peek([0, 4]),
        Some(relative::Piece::NonTam2Piece {
            color: Color::Huok2,
            prof: Profession::Io,
            side: Side::Downward
        })
    );
    assert_eq!(
        board.peek([1, 7]),
        Some(relative::Piece::NonTam2Piece {
            color: Color::Huok2,
            prof: Profession::Gua2,
            side: Side::Downward
        })
    );
}

#[test]
fn initial_boards_agree_through_the_perspective() {
    assert_eq!(
        to_absolute_board(
            &relative::yhuap_initial_board_where_black_king_points_upward(),
            Perspective::IaIsDownAndPointsUpward
        ),
        absolute::yhuap_initial_board()
    );
    assert_eq!(
        to_absolute_board(
            &relative::yhuap_initial_board_where_red_king_points_upward(),
            Perspective::IaIsUpAndPointsDownward
        ),
        absolute::yhuap_initial_board()
    );
    assert_eq!(
        to_relative_board(
            &absolute::yhuap_initial_board(),
            Perspective::IaIsUpAndPointsDownward
        ),
        relative::yhuap_initial_board_where_red_king_points_upward()
    );
}

#[test]
fn board_conversion_keeps_every_piece_on_its_square() {
    for p in [
        Perspective::IaIsDownAndPointsUpward,
        Perspective::IaIsUpAndPointsDownward,
    ] {
        let mut board = empty_relative_board();
        board.put([0, 3], Some(relative::Piece::Tam2));
        board.put(
            [7, 8],
            Some(relative::Piece::NonTam2Piece {
                color: Color::Kok1,
                prof: Profession::Maun1,
                side: Side::Downward,
            }),
        );
        let converted = to_absolute_board(&board, p);
        for i in 0..9 {
            for j in 0..9 {
                assert_eq!(
                    converted.peek(to_absolute_coord([i, j], p)),
                    board.peek([i, j]).map(|piece| to_absolute_piece(piece, p))
                );
            }
        }
        assert_eq!(count_absolute(&converted), 2);
    }
}

#[test]
fn board_conversion_round_trips() {
    for p in [
        Perspective::IaIsDownAndPointsUpward,
        Perspective::IaIsUpAndPointsDownward,
    ] {
        let relative_board = relative::yhuap_initial_board_where_black_king_points_upward();
        assert_eq!(
            to_relative_board(&to_absolute_board(&relative_board, p), p),
            relative_board
        );
        let mut absolute_board = absolute::yhuap_initial_board();
        absolute_board.pop(absolute::Coord(Row::AI, Column::Z));
        absolute_board.put(
            absolute::Coord(Row::U, Column::K),
            Some(red_pawn(AbsoluteSide::ASide)),
        );
        assert_eq!(
            to_absolute_board(&to_relative_board(&absolute_board, p), p),
            absolute_board
        );
        assert_eq!(
            to_relative_board(&absolute::Board::new(), p),
            empty_relative_board()
        );
    }
}

use cetkaik_naive_representation::absolute;
use cetkaik_naive_representation::absolute::{Column, Row};
use cetkaik_naive_representation::error::MoveError;
use cetkaik_naive_representation::fundamental::{AbsoluteSide, Color, ColorAndProf, Profession};
use cetkaik_naive_representation::perspective::{
    to_absolute_coord, to_absolute_field, to_relative_coord, to_relative_field, to_relative_side,
    Perspective,
};
use cetkaik_naive_representation::relative;
use cetkaik_naive_representation::relative::{NonTam2PieceDownward, NonTam2PieceUpward, Side};

fn count_absolute(board: &absolute::Board) -> usize {
    let mut n = 0;
    for i in 0..9 {
        for j in 0..9 {
            let c = to_absolute_coord([i, j], Perspective::IaIsDownAndPointsUpward);
            if board.peek(c).is_some() {
                n += 1;
            }
        }
    }
    n
}

fn count_absolute_tam2(board: &absolute::Board) -> usize {
    let mut n = 0;
    for i in 0..9 {
        for j in 0..9 {
            let c = to_absolute_coord([i, j], Perspective::IaIsDownAndPointsUpward);
            if board.peek(c) == Some(absolute::Piece::Tam2) {
                n += 1;
            }
        }
    }
    n
}

fn count_relative(board: &relative::Board) -> usize {
    board.0.iter().flatten().filter(|sq| sq.is_some()).count()
}

fn initial_relative_field() -> relative::Field {
    relative::Field {
        current_board: relative::yhuap_initial_board_where_black_king_points_upward(),
        hop1zuo1of_upward: vec![],
        hop1zuo1of_downward: vec![],
    }
}

const KA: absolute::Coord = absolute::Coord(Row::A, Column::K);
const KI: absolute::Coord = absolute::Coord(Row::I, Column::K);
const KU: absolute::Coord = absolute::Coord(Row::U, Column::K);
const KAI: absolute::Coord = absolute::Coord(Row::AI, Column::K);
const KE: absolute::Coord = absolute::Coord(Row::E, Column::K);
const ZO: absolute::Coord = absolute::Coord(Row::O, Column::Z);
const ZU: absolute::Coord = absolute::Coord(Row::U, Column::Z);
const ZI: absolute::Coord = absolute::Coord(Row::I, Column::Z);

#[test]
fn initial_field_has_empty_hands() {
    let field = absolute::Field::yhuap_initial();
    assert_eq!(field.board, absolute::yhuap_initial_board());
    assert!(field.a_side_hop1zuo1.is_empty());
    assert!(field.ia_side_hop1zuo1.is_empty());
    assert_eq!(count_absolute(&field.board), 49);
    assert_eq!(count_absolute_tam2(&field.board), 1);
}

#[test]
fn moving_the_opponents_piece_fails_with_not_owner() {
    let field = absolute::Field::yhuap_initial();
    let result = field.move_nontam_piece_from_src_to_dest_while_taking_opponent_piece_if_needed(
        KI,
        KU,
        AbsoluteSide::IASide,
    );
    assert_eq!(result, Err(MoveError::NotOwner));
    assert_eq!(field, absolute::Field::yhuap_initial());
}

#[test]
fn moving_onto_an_empty_square_moves_the_piece_and_keeps_the_hands() {
    let field = absolute::Field::yhuap_initial();
    let piece = field.board.peek(KI).unwrap();
    assert!(piece.has_side(AbsoluteSide::ASide));
    let next = field
        .move_nontam_piece_from_src_to_dest_while_taking_opponent_piece_if_needed(
            KI,
            KU,
            AbsoluteSide::ASide,
        )
        .unwrap();
    assert_eq!(next.board.peek(KI), None);
    assert_eq!(next.board.peek(KU), Some(piece));
    assert!(next.a_side_hop1zuo1.is_empty());
    assert!(next.ia_side_hop1zuo1.is_empty());
    assert_eq!(count_absolute(&next.board), 49);
    let mut expected = absolute::yhuap_initial_board();
    expected.pop(KI);
    expected.put(KU, Some(piece));
    assert_eq!(next.board, expected);
    assert_eq!(field, absolute::Field::yhuap_initial());
}

#[test]
fn capturing_takes_one_piece_off_the_board_into_the_hand() {
    let field = absolute::Field::yhuap_initial();
    let mover = field.board.peek(KI).unwrap();
    let taken = field.board.peek(KAI).unwrap();
    assert_eq!(
        taken,
        absolute::Piece::NonTam2Piece {
            color: Color::Huok2,
            prof: Profession::Kauk2,
            side: AbsoluteSide::IASide
        }
    );
    let next = field
        .move_nontam_piece_from_src_to_dest_while_taking_opponent_piece_if_needed(
            KI,
            KAI,
            AbsoluteSide::ASide,
        )
        .unwrap();
    assert_eq!(count_absolute(&next.board), 48);
    assert_eq!(next.board.peek(KI), None);
    assert_eq!(next.board.peek(KAI), Some(mover));
    assert_eq!(
        next.a_side_hop1zuo1,
        vec![ColorAndProf {
            color: Color::Huok2,
            prof: Profession::Kauk2
        }]
    );
    assert!(next.ia_side_hop1zuo1.is_empty());
    assert_eq!(count_absolute_tam2(&next.board), 1);
}

#[test]
fn captured_pieces_come_last_in_the_hand() {
    let mut field = absolute::Field::yhuap_initial();
    field.insert_nontam_piece_into_hop1zuo1(Color::Kok1, Profession::Io, AbsoluteSide::IASide);
    let next = field
        .move_nontam_piece_from_src_to_dest_while_taking_opponent_piece_if_needed(
            KAI,
            KI,
            AbsoluteSide::IASide,
        )
        .unwrap();
    assert_eq!(
        next.ia_side_hop1zuo1,
        vec![
            ColorAndProf {
                color: Color::Kok1,
                prof: Profession::Io
            },
            ColorAndProf {
                color: Color::Huok2,
                prof: Profession::Kauk2
            }
        ]
    );
    assert!(next.a_side_hop1zuo1.is_empty());
}

#[test]
fn capturing_an_own_piece_fails_and_leaves_the_field() {
    let field = absolute::Field::yhuap_initial();
    let before = field.clone();
    let result = field.move_nontam_piece_from_src_to_dest_while_taking_opponent_piece_if_needed(
        KA,
        KE,
        AbsoluteSide::ASide,
    );
    assert_eq!(result, Err(MoveError::CannotCaptureOwn));
    assert_eq!(field, before);
}

#[test]
fn moving_a_piece_onto_its_own_square_fails_as_a_capture_of_an_own_piece() {
    let field = absolute::Field::yhuap_initial();
    assert_eq!(
        field.move_nontam_piece_from_src_to_dest_while_taking_opponent_piece_if_needed(
            KA,
            KA,
            AbsoluteSide::ASide,
        ),
        Err(MoveError::CannotCaptureOwn)
    );
    let relative_field = initial_relative_field();
    assert_eq!(
        relative_field
            .move_nontam_piece_from_src_to_dest_while_taking_opponent_piece_if_needed(
                [8, 0],
                [8, 0],
                Side::Upward,
            )
            .err(),
        Some(MoveError::CannotCaptureOwn)
    );
}

#[test]
fn moving_from_an_empty_square_fails_with_empty_source() {
    let field = absolute::Field::yhuap_initial();
    for side in [AbsoluteSide::ASide, AbsoluteSide::IASide] {
        assert_eq!(
            field.move_nontam_piece_from_src_to_dest_while_taking_opponent_piece_if_needed(
                KU, KI, side
            ),
            Err(MoveError::EmptySource)
        );
    }
}

#[test]
fn moving_tam2_fails_with_source_is_neutral() {
    let field = absolute::Field::yhuap_initial();
    for side in [AbsoluteSide::ASide, AbsoluteSide::IASide] {
        assert_eq!(
            field.move_nontam_piece_from_src_to_dest_while_taking_opponent_piece_if_needed(
                ZO, ZU, side
            ),
            Err(MoveError::SourceIsNeutral)
        );
    }
}

#[test]
fn capturing_tam2_fails_with_cannot_capture_neutral() {
    let field = absolute::Field::yhuap_initial();
    assert_eq!(
        field.move_nontam_piece_from_src_to_dest_while_taking_opponent_piece_if_needed(
            ZI,
            ZO,
            AbsoluteSide::ASide
        ),
        Err(MoveError::CannotCaptureNeutral)
    );
    assert_eq!(field, absolute::Field::yhuap_initial());
}

#[test]
fn source_errors_come_before_destination_errors() {
    let field = absolute::Field::yhuap_initial();
    assert_eq!(
        field.move_nontam_piece_from_src_to_dest_while_taking_opponent_piece_if_needed(
            KU,
            ZO,
            AbsoluteSide::ASide
        ),
        Err(MoveError::EmptySource)
    );
    assert_eq!(
        field.move_nontam_piece_from_src_to_dest_while_taking_opponent_piece_if_needed(
            KI,
            ZO,
            AbsoluteSide::IASide
        ),
        Err(MoveError::NotOwner)
    );
    assert_eq!(
        field.move_nontam_piece_from_src_to_dest_while_taking_opponent_piece_if_needed(
            ZO,
            KI,
            AbsoluteSide::IASide
        ),
        Err(MoveError::SourceIsNeutral)
    );
}

#[test]
fn error_messages_name_what_went_wrong() {
    assert_eq!(MoveError::EmptySource.message(), "src does not contain a piece");
    assert_eq!(
        MoveError::SourceIsNeutral.message(),
        "Expected a NonTam2Piece to be present at the src, but found a Tam2"
    );
    assert_eq!(MoveError::NotOwner.message(), "Found the opponent piece at the src");
    assert_eq!(MoveError::CannotCaptureNeutral.message(), "Tried to capture a Tam2");
    assert_eq!(MoveError::CannotCaptureOwn.message(), "Tried to capture an ally");
}

#[test]
fn one_tam2_stays_through_a_run_of_moves() {
    let mut field = absolute::Field::yhuap_initial();
    let attempts = [
        (KI, KU, AbsoluteSide::ASide),
        (KAI, KU, AbsoluteSide::IASide),
        (ZO, ZU, AbsoluteSide::ASide),
        (ZI, ZO, AbsoluteSide::ASide),
        (ZI, ZU, AbsoluteSide::ASide),
        (KA, KI, AbsoluteSide::ASide),
        (KU, KI, AbsoluteSide::IASide),
        (KU, KE, AbsoluteSide::ASide),
    ];
    let mut moved = 0;
    for (src, dest, side) in attempts {
        if let Ok(next) = field
            .move_nontam_piece_from_src_to_dest_while_taking_opponent_piece_if_needed(
                src, dest, side,
            )
        {
            field = next;
            moved += 1;
        }
        assert_eq!(count_absolute_tam2(&field.board), 1);
        assert_eq!(field.board.peek(ZO), Some(absolute::Piece::Tam2));
    }
    assert_eq!(moved, 5);
    assert_eq!(
        count_absolute(&field.board) + field.a_side_hop1zuo1.len() + field.ia_side_hop1zuo1.len(),
        49
    );
}

#[test]
fn parachute_without_a_matching_piece_in_hand_returns_none() {
    let mut field = absolute::Field::yhuap_initial();
    assert_eq!(
        field.search_from_hop1zuo1_and_parachute_at(
            Color::Kok1,
            Profession::Kauk2,
            AbsoluteSide::ASide,
            KU
        ),
        None
    );
    field.insert_nontam_piece_into_hop1zuo1(Color::Kok1, Profession::Kauk2, AbsoluteSide::ASide);
    let before = field.clone();
    assert_eq!(
        field.search_from_hop1zuo1_and_parachute_at(
            Color::Huok2,
            Profession::Kauk2,
            AbsoluteSide::ASide,
            KU
        ),
        None
    );
    assert_eq!(
        field.search_from_hop1zuo1_and_parachute_at(
            Color::Kok1,
            Profession::Gua2,
            AbsoluteSide::ASide,
            KU
        ),
        None
    );
    assert_eq!(
        field.search_from_hop1zuo1_and_parachute_at(
            Color::Kok1,
            Profession::Kauk2,
            AbsoluteSide::IASide,
            KU
        ),
        None
    );
    assert_eq!(field, before);
}

#[test]
fn parachute_onto_an_occupied_square_returns_none() {
    let mut field = absolute::Field::yhuap_initial();
    field.insert_nontam_piece_into_hop1zuo1(Color::Kok1, Profession::Kauk2, AbsoluteSide::ASide);
    let before = field.clone();
    for dest in [KI, KAI, ZO] {
        assert_eq!(
            field.search_from_hop1zuo1_and_parachute_at(
                Color::Kok1,
                Profession::Kauk2,
                AbsoluteSide::ASide,
                dest
            ),
            None
        );
    }
    assert_eq!(field, before);
}

#[test]
fn parachute_sets_the_piece_and_takes_the_first_match_from_the_hand() {
    let mut field = absolute::Field::yhuap_initial();
    let pawn = ColorAndProf {
        color: Color::Kok1,
        prof: Profession::Kauk2,
    };
    let king = ColorAndProf {
        color: Color::Huok2,
        prof: Profession::Io,
    };
    field.a_side_hop1zuo1 = vec![king, pawn, king, pawn];
    field.ia_side_hop1zuo1 = vec![pawn];
    let next = field
        .search_from_hop1zuo1_and_parachute_at(
            Color::Kok1,
            Profession::Kauk2,
            AbsoluteSide::ASide,
            KU,
        )
        .unwrap();
    assert_eq!(
        next.board.peek(KU),
        Some(absolute::Piece::NonTam2Piece {
            color: Color::Kok1,
            prof: Profession::Kauk2,
            side: AbsoluteSide::ASide
        })
    );
    assert_eq!(next.a_side_hop1zuo1, vec![king, king, pawn]);
    assert_eq!(next.ia_side_hop1zuo1, vec![pawn]);
    assert_eq!(count_absolute(&next.board), 50);
    assert_eq!(field.a_side_hop1zuo1, vec![king, pawn, king, pawn]);
    assert_eq!(field.board, absolute::yhuap_initial_board());
}

#[test]
fn insert_into_hand_appends_and_allows_duplicates() {
    let mut field = absolute::Field::yhuap_initial();
    field.insert_nontam_piece_into_hop1zuo1(Color::Kok1, Profession::Kauk2, AbsoluteSide::ASide);
    field.insert_nontam_piece_into_hop1zuo1(Color::Kok1, Profession::Kauk2, AbsoluteSide::ASide);
    field.insert_nontam_piece_into_hop1zuo1(Color::Huok2, Profession::Io, AbsoluteSide::IASide);
    let pawn = ColorAndProf {
        color: Color::Kok1,
        prof: Profession::Kauk2,
    };
    assert_eq!(field.a_side_hop1zuo1, vec![pawn, pawn]);
    assert_eq!(
        field.ia_side_hop1zuo1,
        vec![ColorAndProf {
            color: Color::Huok2,
            prof: Profession::Io
        }]
    );
    let mut relative_field = initial_relative_field();
    relative_field.insert_nontam_piece_into_hop1zuo1(Color::Kok1, Profession::Dau2, Side::Upward);
    relative_field.insert_nontam_piece_into_hop1zuo1(Color::Kok1, Profession::Dau2, Side::Upward);
    relative_field.insert_nontam_piece_into_hop1zuo1(Color::Huok2, Profession::Io, Side::Downward);
    assert_eq!(
        relative_field.hop1zuo1of_upward,
        vec![
            NonTam2PieceUpward {
                color: Color::Kok1,
                prof: Profession::Dau2
            };
            2
        ]
    );
    assert_eq!(
        relative_field.hop1zuo1of_downward,
        vec![NonTam2PieceDownward {
            color: Color::Huok2,
            prof: Profession::Io
        }]
    );
}

#[test]
fn as_board_gives_the_board_of_the_field() {
    let mut field = absolute::Field::yhuap_initial();
    assert_eq!(field.as_board(), &absolute::yhuap_initial_board());
    field.as_board_mut().pop(ZO);
    assert_eq!(field.board.peek(ZO), None);
    assert_eq!(count_absolute(field.as_board()), 48);
    let mut relative_field = initial_relative_field();
    assert_eq!(
        relative_field.as_board(),
        &relative::yhuap_initial_board_where_black_king_points_upward()
    );
    relative_field.as_board_mut().put([4, 4], None);
    assert_eq!(relative_field.current_board.peek([4, 4]), None);
}

#[test]
fn relative_move_onto_an_empty_square_clears_the_source() {
    let field = initial_relative_field();
    let piece = field.current_board.peek([6, 0]).unwrap();
    let next = field
        .move_nontam_piece_from_src_to_dest_while_taking_opponent_piece_if_needed(
            [6, 0],
            [5, 0],
            Side::Upward,
        )
        .unwrap();
    assert_eq!(next.current_board.peek([6, 0]), None);
    assert_eq!(next.current_board.peek([5, 0]), Some(piece));
    assert_eq!(count_relative(&next.current_board), 49);
    assert!(next.hop1zuo1of_upward.is_empty());
    assert!(next.hop1zuo1of_downward.is_empty());
    assert_eq!(
        field.current_board,
        relative::yhuap_initial_board_where_black_king_points_upward()
    );
}

#[test]
fn relative_capture_takes_one_piece_off_the_board_into_the_hand() {
    let field = initial_relative_field();
    let mover = field.current_board.peek([2, 8]).unwrap();
    let next = field
        .move_nontam_piece_from_src_to_dest_while_taking_opponent_piece_if_needed(
            [2, 8],
            [6, 8],
            Side::Downward,
        )
        .unwrap();
    assert_eq!(count_relative(&next.current_board), 48);
    assert_eq!(next.current_board.peek([2, 8]), None);
    assert_eq!(next.current_board.peek([6, 8]), Some(mover));
    assert_eq!(
        next.hop1zuo1of_downward,
        vec![NonTam2PieceDownward {
            color: Color::Huok2,
            prof: Profession::Kauk2
        }]
    );
    assert!(next.hop1zuo1of_upward.is_empty());
}

#[test]
fn relative_move_gives_every_error() {
    let field = initial_relative_field();
    let try_move = |src, dest, side| {
        field
            .move_nontam_piece_from_src_to_dest_while_taking_opponent_piece_if_needed(
                src, dest, side,
            )
            .err()
    };
    assert_eq!(try_move([3, 0], [4, 0], Side::Upward), Some(MoveError::EmptySource));
    assert_eq!(try_move([4, 4], [4, 5], Side::Upward), Some(MoveError::SourceIsNeutral));
    assert_eq!(try_move([6, 0], [5, 0], Side::Downward), Some(MoveError::NotOwner));
    assert_eq!(
        try_move([6, 4], [4, 4], Side::Upward),
        Some(MoveError::CannotCaptureNeutral)
    );
    assert_eq!(try_move([8, 0], [7, 0], Side::Upward), Some(MoveError::CannotCaptureOwn));
    assert_eq!(try_move([6, 0], [5, 0], Side::Upward), None);
}

#[test]
fn relative_parachute() {
    let mut field = initial_relative_field();
    assert!(field
        .search_from_hop1zuo1_and_parachute_at(Color::Kok1, Profession::Dau2, Side::Upward, [4, 0])
        .is_none());
    field.hop1zuo1of_upward = vec![
        NonTam2PieceUpward {
            color: Color::Huok2,
            prof: Profession::Dau2,
        },
        NonTam2PieceUpward {
            color: Color::Kok1,
            prof: Profession::Dau2,
        },
    ];
    field.hop1zuo1of_downward = vec![NonTam2PieceDownward {
        color: Color::Kok1,
        prof: Profession::Io,
    }];
    assert!(field
        .search_from_hop1zuo1_and_parachute_at(Color::Kok1, Profession::Dau2, Side::Upward, [4, 4])
        .is_none());
    assert!(field
        .search_from_hop1zuo1_and_parachute_at(
            Color::Kok1,
            Profession::Dau2,
            Side::Downward,
            [4, 0]
        )
        .is_none());
    let next = field
        .search_from_hop1zuo1_and_parachute_at(Color::Kok1, Profession::Dau2, Side::Upward, [4, 0])
        .unwrap();
    assert_eq!(
        next.current_board.peek([4, 0]),
        Some(relative::Piece::NonTam2Piece {
            color: Color::Kok1,
            prof: Profession::Dau2,
            side: Side::Upward
        })
    );
    assert_eq!(
        next.hop1zuo1of_upward,
        vec![NonTam2PieceUpward {
            color: Color::Huok2,
            prof: Profession::Dau2,
        }]
    );
    assert_eq!(next.hop1zuo1of_downward, field.hop1zuo1of_downward);
    assert_eq!(count_relative(&next.current_board), 50);
    let down = field
        .search_from_hop1zuo1_and_parachute_at(Color::Kok1, Profession::Io, Side::Downward, [3, 3])
        .unwrap();
    assert!(down.hop1zuo1of_downward.is_empty());
    assert_eq!(down.hop1zuo1of_upward, field.hop1zuo1of_upward);
}

#[test]
fn field_conversion_maps_the_hands_to_the_sides() {
    let mut field = absolute::Field::yhuap_initial();
    field.insert_nontam_piece_into_hop1zuo1(Color::Kok1, Profession::Kauk2, AbsoluteSide::ASide);
    field.insert_nontam_piece_into_hop1zuo1(Color::Huok2, Profession::Io, AbsoluteSide::IASide);
    field.insert_nontam_piece_into_hop1zuo1(Color::Huok2, Profession::Gua2, AbsoluteSide::IASide);
    let down = to_relative_field(field.clone(), Perspective::IaIsDownAndPointsUpward);
    assert_eq!(
        down.hop1zuo1of_upward,
        vec![
            NonTam2PieceUpward {
                color: Color::Huok2,
                prof: Profession::Io
            },
            NonTam2PieceUpward {
                color: Color::Huok2,
                prof: Profession::Gua2
            }
        ]
    );
    assert_eq!(
        down.hop1zuo1of_downward,
        vec![NonTam2PieceDownward {
            color: Color::Kok1,
            prof: Profession::Kauk2
        }]
    );
    assert_eq!(
        down.current_board,
        relative::yhuap_initial_board_where_black_king_points_upward()
    );
    let up = to_relative_field(field.clone(), Perspective::IaIsUpAndPointsDownward);
    assert_eq!(
        up.hop1zuo1of_upward,
        vec![NonTam2PieceUpward {
            color: Color::Kok1,
            prof: Profession::Kauk2
        }]
    );
    assert_eq!(up.hop1zuo1of_downward.len(), 2);
    assert_eq!(
        up.current_board,
        relative::yhuap_initial_board_where_red_king_points_upward()
    );
    assert_eq!(
        to_absolute_field(down, Perspective::IaIsDownAndPointsUpward),
        field
    );
    assert_eq!(
        to_absolute_field(up, Perspective::IaIsUpAndPointsDownward),
        field
    );
}

#[test]
fn moves_are_the_same_in_both_representations() {
    let field = absolute::Field::yhuap_initial();
    let attempts = [
        (KI, KU, AbsoluteSide::ASide),
        (KI, KAI, AbsoluteSide::ASide),
        (KAI, KI, AbsoluteSide::IASide),
        (KI, KU, AbsoluteSide::IASide),
        (KU, KI, AbsoluteSide::ASide),
        (ZO, ZU, AbsoluteSide::ASide),
        (ZI, ZO, AbsoluteSide::ASide),
        (KA, KE, AbsoluteSide::ASide),
    ];
    for p in [
        Perspective::IaIsDownAndPointsUpward,
        Perspective::IaIsUpAndPointsDownward,
    ] {
        let seen = to_relative_field(field.clone(), p);
        for (src, dest, side) in attempts {
            let absolute_result = field
                .move_nontam_piece_from_src_to_dest_while_taking_opponent_piece_if_needed(
                    src, dest, side,
                );
            let relative_result = seen
                .move_nontam_piece_from_src_to_dest_while_taking_opponent_piece_if_needed(
                    to_relative_coord(src, p),
                    to_relative_coord(dest, p),
                    to_relative_side(side, p),
                );
            match (absolute_result, relative_result) {
                (Ok(a), Ok(r)) => assert_eq!(to_absolute_field(r, p), a),
                (Err(a), Err(r)) => assert_eq!(a, r),
                _ => panic!("one representation moved and the other did not"),
            }
        }
    }
}

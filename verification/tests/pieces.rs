use cetkaik_naive_representation::absolute;
use cetkaik_naive_representation::fundamental::{AbsoluteSide, Color, Profession};
use cetkaik_naive_representation::perspective::{
    to_absolute_piece, to_relative_piece, Perspective,
};
use cetkaik_naive_representation::relative;
use cetkaik_naive_representation::relative::{NonTam2PieceDownward, NonTam2PieceUpward, Side};
use std::ops::Not;

const PROFESSIONS: [Profession; 10] = [
    Profession::Nuak1,
    Profession::Kauk2,
    Profession::Gua2,
    Profession::Kaun1,
    Profession::Dau2,
    Profession::Maun1,
    Profession::Kua2,
    Profession::Tuk2,
    Profession::Uai1,
    Profession::Io,
];

#[test]
fn tam2_has_no_color_profession_or_side() {
    let a = absolute::Piece::Tam2;
    let r = relative::Piece::Tam2;
    assert!(a.is_tam2());
    assert!(r.is_tam2());
    for color in [Color::Kok1, Color::Huok2] {
        assert!(!a.has_color(color));
        assert!(!r.has_color(color));
    }
    for prof in PROFESSIONS {
        assert!(!a.has_prof(prof));
        assert!(!r.has_prof(prof));
    }
    assert!(!a.has_side(AbsoluteSide::ASide));
    assert!(!a.has_side(AbsoluteSide::IASide));
    assert!(!r.has_side(Side::Upward));
    assert!(!r.has_side(Side::Downward));
}

#[test]
fn absolute_piece_predicates() {
    let p = absolute::Piece::NonTam2Piece {
        color: Color::Kok1,
        prof: Profession::Uai1,
        side: AbsoluteSide::IASide,
    };
    assert!(!p.is_tam2());
    assert!(p.has_color(Color::Kok1));
    assert!(!p.has_color(Color::Huok2));
    assert!(p.has_prof(Profession::Uai1));
    assert!(!p.has_prof(Profession::Io));
    assert!(p.has_side(AbsoluteSide::IASide));
    assert!(!p.has_side(AbsoluteSide::ASide));
}

#[test]
fn relative_piece_predicates() {
    let p = relative::Piece::NonTam2Piece {
        color: Color::Huok2,
        prof: Profession::Gua2,
        side: Side::Downward,
    };
    assert!(!p.is_tam2());
    assert!(p.has_color(Color::Huok2));
    assert!(!p.has_color(Color::Kok1));
    assert!(p.has_prof(Profession::Gua2));
    assert!(!p.has_prof(Profession::Kauk2));
    assert!(p.has_side(Side::Downward));
    assert!(!p.has_side(Side::Upward));
}

#[test]
fn not_flips_a_side_and_twice_gives_it_back() {
    assert_eq!(Side::Upward.not(), Side::Downward);
    assert_eq!(Side::Downward.not(), Side::Upward);
    assert_eq!(!Side::Upward, Side::Downward);
    for side in [Side::Upward, Side::Downward] {
        assert_eq!(side.not().not(), side);
    }
}

#[test]
fn pieces_in_hand_become_pieces_of_their_side() {
    assert_eq!(
        relative::Piece::from(NonTam2PieceUpward {
            color: Color::Kok1,
            prof: Profession::Dau2
        }),
        relative::Piece::NonTam2Piece {
            color: Color::Kok1,
            prof: Profession::Dau2,
            side: Side::Upward
        }
    );
    assert_eq!(
        relative::Piece::from(NonTam2PieceDownward {
            color: Color::Huok2,
            prof: Profession::Io
        }),
        relative::Piece::NonTam2Piece {
            color: Color::Huok2,
            prof: Profession::Io,
            side: Side::Downward
        }
    );
}

#[test]
fn to_relative_piece_known_values() {
    assert_eq!(
        to_relative_piece(absolute::Piece::Tam2, Perspective::IaIsDownAndPointsUpward),
        relative::Piece::Tam2
    );
    assert_eq!(
        to_relative_piece(
            absolute::Piece::NonTam2Piece {
                prof: Profession::Uai1,
                color: Color::Kok1,
                side: AbsoluteSide::IASide
            },
            Perspective::IaIsDownAndPointsUpward
        ),
        relative::Piece::NonTam2Piece {
            prof: Profession::Uai1,
            color: Color::Kok1,
            side: Side::Upward
        }
    );
    assert_eq!(
        to_relative_piece(
            absolute::Piece::NonTam2Piece {
                prof: Profession::Uai1,
                color: Color::Kok1,
                side: AbsoluteSide::IASide
            },
            Perspective::IaIsUpAndPointsDownward
        ),
        relative::Piece::NonTam2Piece {
            prof: Profession::Uai1,
            color: Color::Kok1,
            side: Side::Downward
        }
    );
}

#[test]
fn to_absolute_piece_known_values() {
    assert_eq!(
        to_absolute_piece(relative::Piece::Tam2, Perspective::IaIsDownAndPointsUpward),
        absolute::Piece::Tam2
    );
    assert_eq!(
        to_absolute_piece(
            relative::Piece::NonTam2Piece {
                prof: Profession::Uai1,
                color: Color::Kok1,
                side: Side::Upward
            },
            Perspective::IaIsDownAndPointsUpward
        ),
        absolute::Piece::NonTam2Piece {
            prof: Profession::Uai1,
            color: Color::Kok1,
            side: AbsoluteSide::IASide
        }
    );
}

#[test]
fn piece_conversion_round_trips() {
    for p in [
        Perspective::IaIsDownAndPointsUpward,
        Perspective::IaIsUpAndPointsDownward,
    ] {
        assert_eq!(
            to_absolute_piece(to_relative_piece(absolute::Piece::Tam2, p), p),
            absolute::Piece::Tam2
        );
        for prof in PROFESSIONS {
            for color in [Color::Kok1, Color::Huok2] {
                for side in [AbsoluteSide::ASide, AbsoluteSide::IASide] {
                    let piece = absolute::Piece::NonTam2Piece { prof, color, side };
                    assert_eq!(to_absolute_piece(to_relative_piece(piece, p), p), piece);
                }
                for side in [Side::Upward, Side::Downward] {
                    let piece = relative::Piece::NonTam2Piece { prof, color, side };
                    assert_eq!(to_relative_piece(to_absolute_piece(piece, p), p), piece);
                }
            }
        }
    }
}

#[test]
fn serialize_piece_known_values() {
    assert_eq!(relative::serialize_piece(relative::Piece::Tam2), "皇");
    assert_eq!(
        relative::serialize_piece(relative::Piece::NonTam2Piece {
            prof: Profession::Uai1,
            color: Color::Kok1,
            side: Side::Downward
        }),
        "赤将↓"
    );
    assert_eq!(
        relative::serialize_piece(relative::Piece::NonTam2Piece {
            prof: Profession::Nuak1,
            color: Color::Huok2,
            side: Side::Upward
        }),
        "黒船↑"
    );
}

#[test]
fn serialize_piece_writes_every_profession() {
    let expected = ["船", "兵", "弓", "車", "虎", "馬", "筆", "巫", "将", "王"];
    for (prof, text) in PROFESSIONS.iter().zip(expected) {
        assert_eq!(
            relative::serialize_piece(relative::Piece::NonTam2Piece {
                prof: *prof,
                color: Color::Kok1,
                side: Side::Upward
            }),
            format!("赤{}↑", text)
        );
    }
}

#[test]
fn serialize_side_known_values() {
    assert_eq!(relative::serialize_side(Side::Upward), "↑");
    assert_eq!(relative::serialize_side(Side::Downward), "↓");
}

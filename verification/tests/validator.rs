//! The structural checks on single FEN fields.

use fenboard::validate::{
    classify_active_color, en_passant_is_dash, inspect_castling, placement_field_ok, ActiveColor,
};

#[test]
fn legal_placement_fields_pass() {
    assert!(placement_field_ok("rnbqkbnr/pppppppp/8/8/8/8/PPPPPPPP/RNBQKBNR"));
    assert!(placement_field_ok("8/8/8/8/8/8/8/8"));
    assert!(placement_field_ok(""));
}

#[test]
fn illegal_placement_characters_fail() {
    assert!(!placement_field_ok("rnbqkbnx/8/8/8/8/8/8/8"));
    assert!(!placement_field_ok("9"));
    assert!(!placement_field_ok("0"));
    assert!(!placement_field_ok("8 8"));
}

#[test]
fn active_color_classification() {
    assert_eq!(classify_active_color("w"), ActiveColor::White);
    assert_eq!(classify_active_color("b"), ActiveColor::Black);
    assert_eq!(classify_active_color("W"), ActiveColor::Unrecognized);
    assert_eq!(classify_active_color("wb"), ActiveColor::Unrecognized);
    assert_eq!(classify_active_color(""), ActiveColor::Unrecognized);
}

#[test]
fn castling_dash_means_no_rights() {
    let rep = inspect_castling("-");
    assert!(rep.no_rights);
    assert!(!rep.white_kingside);
    assert!(!rep.white_queenside);
    assert!(!rep.black_kingside);
    assert!(!rep.black_queenside);
    assert!(rep.any_marker);
    assert!(rep.all_markers);
}

#[test]
fn castling_kq_sets_white_rights_only() {
    let rep = inspect_castling("KQ");
    assert!(!rep.no_rights);
    assert!(rep.white_kingside);
    assert!(rep.white_queenside);
    assert!(!rep.black_kingside);
    assert!(!rep.black_queenside);
    assert!(rep.any_marker);
    assert!(rep.all_markers);
}

#[test]
fn castling_full_rights() {
    let rep = inspect_castling("KQkq");
    assert!(rep.white_kingside && rep.white_queenside && rep.black_kingside
        && rep.black_queenside);
    assert!(rep.any_marker && rep.all_markers);
}

#[test]
fn castling_meaningless_field() {
    let rep = inspect_castling("xyz");
    assert!(!rep.any_marker);
    assert!(!rep.all_markers);
    assert!(!rep.no_rights);
}

#[test]
fn castling_mixed_field() {
    let rep = inspect_castling("Kx");
    assert!(rep.white_kingside);
    assert!(rep.any_marker);
    assert!(!rep.all_markers);
}

#[test]
fn en_passant_dash_detection() {
    assert!(en_passant_is_dash("-"));
    assert!(!en_passant_is_dash("e3"));
    assert!(!en_passant_is_dash(""));
    assert!(!en_passant_is_dash("--"));
}

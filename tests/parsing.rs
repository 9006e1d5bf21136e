use cerke_bot::coord::{parse_coord, Column, Coord, Row};
use cerke_bot::descriptor::{parse_descriptor, Descriptor};
use cerke_bot::piece::{Color, Profession, Side};
use cerke_bot::tokens::split_words;

const ROWS: [(Row, &str); 9] = [
    (Row::A, "A"),
    (Row::E, "E"),
    (Row::I, "I"),
    (Row::U, "U"),
    (Row::O, "O"),
    (Row::Y, "Y"),
    (Row::AI, "AI"),
    (Row::AU, "AU"),
    (Row::IA, "IA"),
];

const COLUMNS: [(Column, &str); 9] = [
    (Column::K, "K"),
    (Column::L, "L"),
    (Column::N, "N"),
    (Column::T, "T"),
    (Column::Z, "Z"),
    (Column::X, "X"),
    (Column::C, "C"),
    (Column::M, "M"),
    (Column::P, "P"),
];

#[test]
fn split_words_drops_whitespace() {
    assert_eq!(split_words("  mov\tKA   LE \n"), vec!["mov", "KA", "LE"]);
    assert_eq!(split_words("parachute NA red pawn"), vec!["parachute", "NA", "red", "pawn"]);
}

#[test]
fn split_words_of_blank_line_is_empty() {
    assert!(split_words("").is_empty());
    assert!(split_words("   \t ").is_empty());
}

#[test]
fn split_words_keeps_non_ascii_tokens() {
    assert_eq!(split_words("parachute ZO 王\u{3000}赤"), vec!["parachute", "ZO", "王", "赤"]);
}

#[test]
fn every_square_round_trips_through_its_token() {
    for (row, r) in ROWS {
        for (column, c) in COLUMNS {
            let token = format!("{}{}", c, r);
            assert_eq!(parse_coord(&token), Some(Coord(row, column)), "{}", token);
        }
    }
}

#[test]
fn multi_letter_rows_are_read_whole() {
    assert_eq!(parse_coord("LIA"), Some(Coord(Row::IA, Column::L)));
    assert_eq!(parse_coord("ZAU"), Some(Coord(Row::AU, Column::Z)));
    assert_eq!(parse_coord("NE"), Some(Coord(Row::E, Column::N)));
}

#[test]
fn malformed_coordinates_are_rejected() {
    assert_eq!(parse_coord("XYZ"), None);
    assert_eq!(parse_coord("LiA"), None);
    assert_eq!(parse_coord("ka"), None);
    assert_eq!(parse_coord("K"), None);
    assert_eq!(parse_coord(""), None);
    assert_eq!(parse_coord("KAIA"), None);
    assert_eq!(parse_coord("QA"), None);
    assert_eq!(parse_coord("KII"), None);
    assert_eq!(parse_coord("王A"), None);
}

#[test]
fn king_is_read_from_its_glyph() {
    assert_eq!(parse_descriptor("王"), Some(Descriptor::Profession(Profession::Io)));
    assert_eq!(parse_descriptor("king"), Some(Descriptor::Profession(Profession::Io)));
    assert_eq!(parse_descriptor("ales"), Some(Descriptor::Profession(Profession::Io)));
}

#[test]
fn professions_and_colors_ignore_case() {
    assert_eq!(parse_descriptor("Pawn"), Some(Descriptor::Profession(Profession::Kauk2)));
    assert_eq!(parse_descriptor("PAWN"), Some(Descriptor::Profession(Profession::Kauk2)));
    assert_eq!(parse_descriptor("車"), Some(Descriptor::Profession(Profession::Kaun1)));
    assert_eq!(parse_descriptor("车"), Some(Descriptor::Profession(Profession::Kaun1)));
    assert_eq!(parse_descriptor("RED"), Some(Descriptor::Color(Color::Kok1)));
    assert_eq!(parse_descriptor("黒"), Some(Descriptor::Color(Color::Huok2)));
    assert_eq!(parse_descriptor("huok2"), Some(Descriptor::Color(Color::Huok2)));
}

#[test]
fn sides_are_case_sensitive() {
    assert_eq!(parse_descriptor("A"), Some(Descriptor::Side(Side::ASide)));
    assert_eq!(parse_descriptor("IA"), Some(Descriptor::Side(Side::IASide)));
    assert_eq!(parse_descriptor("a"), None);
    assert_eq!(parse_descriptor("ia"), None);
}

#[test]
fn tokens_outside_the_tables_are_unrecognized() {
    assert_eq!(parse_descriptor("XYZ"), None);
    assert_eq!(parse_descriptor(""), None);
    assert_eq!(parse_descriptor("pawns"), None);
    assert_eq!(parse_descriptor("KA"), None);
}

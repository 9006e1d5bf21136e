use cerke_bot::command::{
    capture, expect_at_least_how_many, gather_hints, mov, parachute, stepdown, stepup, Argument,
    CommandError, Hints, ResolvedAction,
};
use cerke_bot::coord::{Column, Coord, Row};
use cerke_bot::piece::{Color, Piece, Profession, Side};
use cerke_bot::resolve::{ResolveError, Scope};

fn strings(v: &[&str]) -> Vec<String> {
    v.iter().map(|s| s.to_string()).collect()
}

#[test]
fn mov_with_one_coordinate_lacks_an_argument() {
    assert_eq!(mov("mov KA"), Err(CommandError::Arity { expected: 2, got: 1 }));
    assert_eq!(mov("mov"), Err(CommandError::Arity { expected: 2, got: 0 }));
}

#[test]
fn arity_counts_all_tokens_but_reports_arguments() {
    let t = strings(&["mov", "KA"]);
    assert_eq!(expect_at_least_how_many(t.clone(), 1), Ok(t.clone()));
    assert_eq!(
        expect_at_least_how_many(t, 2),
        Err(CommandError::Arity { expected: 2, got: 1 })
    );
    assert_eq!(
        expect_at_least_how_many(vec![], 1),
        Err(CommandError::Arity { expected: 1, got: 0 })
    );
}

#[test]
fn mov_reads_source_then_destination() {
    assert_eq!(
        mov("~mov KA LIA"),
        Ok(ResolvedAction::Move {
            src: Coord(Row::A, Column::K),
            dst: Coord(Row::IA, Column::L)
        })
    );
}

#[test]
fn mov_reports_the_bad_argument() {
    assert_eq!(
        mov("mov KQ LE"),
        Err(CommandError::NotACoordinate { argument: Argument::First, token: "KQ".to_string() })
    );
    assert_eq!(
        mov("mov KA le"),
        Err(CommandError::NotACoordinate { argument: Argument::Second, token: "le".to_string() })
    );
}

#[test]
fn single_square_commands() {
    assert_eq!(capture("capture ZO"), Ok(ResolvedAction::Capture { src: Coord(Row::O, Column::Z) }));
    assert_eq!(stepdown("stepdown PY"), Ok(ResolvedAction::StepDown { dst: Coord(Row::Y, Column::P) }));
    assert_eq!(capture("capture"), Err(CommandError::Arity { expected: 1, got: 0 }));
    assert_eq!(
        stepup("stepup KA LA"),
        Ok(ResolvedAction::StepUp { src: Coord(Row::A, Column::K), dst: Coord(Row::A, Column::L) })
    );
}

#[test]
fn hints_are_gathered_and_repeats_allowed() {
    let t = strings(&["parachute", "NA", "red", "pawn", "赤", "IA"]);
    assert_eq!(
        gather_hints(&t, 2),
        Ok(Hints { side: Some(Side::IASide), color: Some(Color::Kok1), prof: Some(Profession::Kauk2) })
    );
}

#[test]
fn conflicting_hints_are_errors() {
    let t = strings(&["parachute", "NA", "red", "black"]);
    assert_eq!(gather_hints(&t, 2), Err(CommandError::ConflictingColor(Color::Kok1, Color::Huok2)));
    let t = strings(&["parachute", "NA", "pawn", "king"]);
    assert_eq!(
        gather_hints(&t, 2),
        Err(CommandError::ConflictingProfession(Profession::Kauk2, Profession::Io))
    );
    let t = strings(&["parachute", "NA", "A", "IA"]);
    assert_eq!(gather_hints(&t, 2), Err(CommandError::ConflictingSide(Side::ASide, Side::IASide)));
}

#[test]
fn unknown_descriptor_stops_the_drop() {
    let a = [Piece { color: Color::Kok1, prof: Profession::Kauk2 }];
    assert_eq!(
        parachute("parachute NA pawn purple", &a, &[]),
        Err(CommandError::Unrecognizable("purple".to_string()))
    );
}

#[test]
fn parachute_resolves_against_the_reserves() {
    let a = [Piece { color: Color::Kok1, prof: Profession::Kauk2 }];
    let ia = [Piece { color: Color::Huok2, prof: Profession::Kauk2 }];
    assert_eq!(
        parachute("parachute NA", &a, &ia),
        Err(CommandError::Resolve(ResolveError::Ambiguous(Scope::Both)))
    );
    assert_eq!(
        parachute("parachute NA black", &a, &ia),
        Ok(ResolvedAction::Drop {
            dst: Coord(Row::A, Column::N),
            side: Side::IASide,
            color: Color::Huok2,
            prof: Profession::Kauk2
        })
    );
    assert_eq!(
        parachute("parachute XX black", &a, &ia),
        Err(CommandError::NotACoordinate { argument: Argument::First, token: "XX".to_string() })
    );
}

#[test]
fn error_messages() {
    assert_eq!(
        CommandError::Arity { expected: 12, got: 7 }.message(),
        "Not enough arguments. Expected: 12, got: 7"
    );
    assert_eq!(
        CommandError::NotACoordinate { argument: Argument::Second, token: "KQ".to_string() }.message(),
        "The second argument is incorrect. Expected a coordinate, got: KQ"
    );
    assert_eq!(
        CommandError::ConflictingProfession(Profession::Kauk2, Profession::Io).message(),
        "conflicting profession info: Kauk2 and Io"
    );
    assert_eq!(
        CommandError::Unrecognizable("purple".to_string()).message(),
        "unrecognizable option: purple"
    );
    assert_eq!(
        CommandError::Resolve(ResolveError::SideReserveEmpty(Side::ASide)).message(),
        "No piece found in ASides' hop1zuo1"
    );
}

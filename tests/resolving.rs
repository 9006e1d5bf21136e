use cerke_bot::piece::{Color, Piece, Profession, Side};
use cerke_bot::resolve::{get_scp, is_all_same, matcher, ResolveError, Scope};

fn piece(color: Color, prof: Profession) -> Piece {
    Piece { color, prof }
}

#[test]
fn differing_pieces_on_both_sides_are_ambiguous() {
    let a = [piece(Color::Kok1, Profession::Kauk2)];
    let ia = [piece(Color::Huok2, Profession::Kauk2)];
    assert_eq!(get_scp(None, None, None, &a, &ia), Err(ResolveError::Ambiguous(Scope::Both)));
}

#[test]
fn only_a_side_holds_pieces() {
    let a = [piece(Color::Kok1, Profession::Kauk2)];
    assert_eq!(
        get_scp(None, None, None, &a, &[]),
        Ok((Side::ASide, Color::Kok1, Profession::Kauk2))
    );
}

#[test]
fn empty_reserves_fail_whatever_the_hints() {
    assert_eq!(get_scp(None, None, None, &[], &[]), Err(ResolveError::EmptyReserves));
    assert_eq!(
        get_scp(Some(Side::ASide), Some(Color::Kok1), Some(Profession::Io), &[], &[]),
        Err(ResolveError::EmptyReserves)
    );
    assert_eq!(
        get_scp(None, Some(Color::Huok2), None, &[], &[]),
        Err(ResolveError::EmptyReserves)
    );
}

#[test]
fn all_three_hints_are_taken_unchecked() {
    let a = [piece(Color::Kok1, Profession::Kauk2)];
    assert_eq!(
        get_scp(Some(Side::IASide), Some(Color::Huok2), Some(Profession::Io), &a, &[]),
        Ok((Side::IASide, Color::Huok2, Profession::Io))
    );
}

#[test]
fn resolution_repeats_itself() {
    let a = [piece(Color::Kok1, Profession::Kauk2), piece(Color::Huok2, Profession::Gua2)];
    let ia = [piece(Color::Huok2, Profession::Kauk2)];
    let first = get_scp(None, Some(Color::Huok2), Some(Profession::Gua2), &a, &ia);
    let second = get_scp(None, Some(Color::Huok2), Some(Profession::Gua2), &a, &ia);
    assert_eq!(first, second);
    assert_eq!(first, Ok((Side::ASide, Color::Huok2, Profession::Gua2)));
}

#[test]
fn side_hint_with_empty_reserve_fails() {
    let a = [piece(Color::Kok1, Profession::Kauk2)];
    assert_eq!(
        get_scp(Some(Side::IASide), None, None, &a, &[]),
        Err(ResolveError::SideReserveEmpty(Side::IASide))
    );
}

#[test]
fn a_side_hint_with_empty_a_reserve_searches_ia_side() {
    let ia = [piece(Color::Huok2, Profession::Io)];
    assert_eq!(
        get_scp(Some(Side::ASide), None, None, &[], &ia),
        Ok((Side::IASide, Color::Huok2, Profession::Io))
    );
}

#[test]
fn no_match_names_the_searched_reserves() {
    let a = [piece(Color::Kok1, Profession::Kauk2)];
    let ia = [piece(Color::Huok2, Profession::Kauk2)];
    assert_eq!(
        get_scp(None, None, Some(Profession::Io), &a, &ia),
        Err(ResolveError::NoMatch(Scope::Both))
    );
    assert_eq!(
        get_scp(Some(Side::ASide), Some(Color::Huok2), None, &a, &ia),
        Err(ResolveError::NoMatch(Scope::Single(Side::ASide)))
    );
    assert_eq!(
        get_scp(None, None, Some(Profession::Io), &[], &ia),
        Err(ResolveError::NoMatch(Scope::Single(Side::IASide)))
    );
}

#[test]
fn equal_copies_in_one_reserve_resolve() {
    let ia = [
        piece(Color::Kok1, Profession::Kauk2),
        piece(Color::Huok2, Profession::Io),
        piece(Color::Kok1, Profession::Kauk2),
    ];
    assert_eq!(
        get_scp(None, None, Some(Profession::Kauk2), &[], &ia),
        Ok((Side::IASide, Color::Kok1, Profession::Kauk2))
    );
}

#[test]
fn different_pieces_in_one_reserve_are_ambiguous() {
    let ia = [piece(Color::Kok1, Profession::Kauk2), piece(Color::Huok2, Profession::Kauk2)];
    assert_eq!(
        get_scp(None, None, Some(Profession::Kauk2), &[], &ia),
        Err(ResolveError::Ambiguous(Scope::Single(Side::IASide)))
    );
}

#[test]
fn same_piece_on_both_sides_needs_the_side() {
    let a = [piece(Color::Kok1, Profession::Kauk2)];
    let ia = [piece(Color::Kok1, Profession::Kauk2)];
    assert_eq!(get_scp(None, None, None, &a, &ia), Err(ResolveError::Ambiguous(Scope::Both)));
    assert_eq!(
        get_scp(Some(Side::IASide), None, None, &a, &ia),
        Ok((Side::IASide, Color::Kok1, Profession::Kauk2))
    );
}

#[test]
fn dual_search_with_one_fitting_piece() {
    let a = [piece(Color::Kok1, Profession::Kauk2)];
    let ia = [piece(Color::Huok2, Profession::Io)];
    assert_eq!(
        get_scp(None, None, Some(Profession::Io), &a, &ia),
        Ok((Side::IASide, Color::Huok2, Profession::Io))
    );
}

#[test]
fn matcher_accepts_absent_hint() {
    assert!(matcher(Color::Kok1, None));
    assert!(matcher(Color::Kok1, Some(Color::Kok1)));
    assert!(!matcher(Color::Kok1, Some(Color::Huok2)));
}

#[test]
fn is_all_same_compares_side_too() {
    let p = piece(Color::Kok1, Profession::Kauk2);
    assert!(is_all_same(&[]));
    assert!(is_all_same(&[(Side::ASide, p)]));
    assert!(is_all_same(&[(Side::ASide, p), (Side::ASide, p), (Side::ASide, p)]));
    assert!(!is_all_same(&[(Side::ASide, p), (Side::IASide, p)]));
    assert!(!is_all_same(&[
        (Side::ASide, p),
        (Side::ASide, p),
        (Side::ASide, piece(Color::Huok2, Profession::Kauk2))
    ]));
}

#[test]
fn resolve_messages() {
    assert_eq!(ResolveError::EmptyReserves.message(), "No piece found in either sides' hop1zuo1");
    assert_eq!(
        ResolveError::Ambiguous(Scope::Both).message(),
        "Not enough info to identify the piece. Add side/color/profession and try again"
    );
    assert_eq!(
        ResolveError::NoMatch(Scope::Single(Side::IASide)).message(),
        "No piece in IASide's hop1zuo1 matches the description"
    );
}

#[test]
fn reserve_order_does_not_matter() {
    let k = piece(Color::Kok1, Profession::Kauk2);
    let h = piece(Color::Huok2, Profession::Io);
    let ia = [piece(Color::Huok2, Profession::Kauk2)];
    for hint in [None, Some(Profession::Kauk2), Some(Profession::Io)] {
        assert_eq!(
            get_scp(None, None, hint, &[k, h, k], &ia),
            get_scp(None, None, hint, &[h, k, k], &ia)
        );
    }
    assert_eq!(
        get_scp(Some(Side::ASide), None, None, &[k, k], &ia),
        Ok((Side::ASide, Color::Kok1, Profession::Kauk2))
    );
}

//! Resolution of a drop from reserve: from optional side, color and
//! profession hints and the two reserves, find exactly one piece.
//!
//! When both reserves are searched, candidates are compared together with the
//! side they come from: the same color and profession held by both players is
//! still ambiguous, and the side must be named.

use vstd::prelude::*;

use crate::piece::{Color, Facet, Piece, Profession, Side};

verus! {

/// A piece that a drop may refer to, with the side whose reserve holds it.
pub type Candidate = (Side, Piece);

/// Which reserves a failed search looked in.
#[derive(Clone, Copy, Debug, PartialEq, Eq, Structural)]
pub enum Scope {
    Single(Side),
    Both,
}

/// Why a drop could not be resolved to one piece.
#[derive(Clone, Copy, Debug, PartialEq, Eq, Structural)]
pub enum ResolveError {
    /// Neither side holds any piece in reserve.
    EmptyReserves,
    /// The search was confined to this side, whose reserve is empty.
    SideReserveEmpty(Side),
    /// No piece in the searched reserves fits the hints.
    NoMatch(Scope),
    /// Several different pieces fit the hints.
    Ambiguous(Scope),
}

/// Whether `a` satisfies the optional hint `b`: an absent hint accepts everything.
pub fn matcher<T: Facet>(a: T, b: Option<T>) -> (r: bool)
    ensures
        r == (b.is_none() || b == Some(a)),
{
    match b {
        None => true,
        Some(x) => x.same(&a),
    }
}

/// Whether a reserve piece fits the color and profession hints.
pub open spec fn fits(p: Piece, color: Option<Color>, prof: Option<Profession>) -> bool {
    (color.is_none() || color == Some(p.color)) && (prof.is_none() || prof == Some(p.prof))
}

/// The pieces of `reserve` that fit the hints, in reserve order, tagged with `side`.
pub open spec fn candidates(
    side: Side,
    reserve: Seq<Piece>,
    color: Option<Color>,
    prof: Option<Profession>,
) -> Seq<Candidate>
    decreases reserve.len(),
{
    if reserve.len() == 0 {
        seq![]
    } else {
        let rest = candidates(side, reserve.drop_last(), color, prof);
        if fits(reserve.last(), color, prof) {
            rest.push((side, reserve.last()))
        } else {
            rest
        }
    }
}

/// Whether all elements of `s` are equal.
pub open spec fn all_same(s: Seq<Candidate>) -> bool {
    forall|i: int, j: int| 0 <= i < s.len() && 0 <= j < s.len() ==> s[i] == s[j]
}

/// The outcome of a search over `cands`: no candidate, one piece (possibly
/// held several times), or an ambiguity.
pub open spec fn pick(cands: Seq<Candidate>, scope: Scope) -> Result<
    (Side, Color, Profession),
    ResolveError,
> {
    if cands.len() == 0 {
        Err(ResolveError::NoMatch(scope))
    } else if all_same(cands) {
        Ok((cands[0].0, cands[0].1.color, cands[0].1.prof))
    } else {
        Err(ResolveError::Ambiguous(scope))
    }
}

/// The piece a drop refers to, given the hints and the A-side and IA-side reserves.
pub open spec fn resolution(
    side: Option<Side>,
    color: Option<Color>,
    prof: Option<Profession>,
    a_side: Seq<Piece>,
    ia_side: Seq<Piece>,
) -> Result<(Side, Color, Profession), ResolveError> {
    if a_side.len() == 0 && ia_side.len() == 0 {
        Err(ResolveError::EmptyReserves)
    } else if side.is_some() && color.is_some() && prof.is_some() {
        Ok((side.unwrap(), color.unwrap(), prof.unwrap()))
    } else if a_side.len() == 0 || side == Some(Side::IASide) {
        if ia_side.len() == 0 {
            Err(ResolveError::SideReserveEmpty(Side::IASide))
        } else {
            pick(candidates(Side::IASide, ia_side, color, prof), Scope::Single(Side::IASide))
        }
    } else if ia_side.len() == 0 || side == Some(Side::ASide) {
        if a_side.len() == 0 {
            Err(ResolveError::SideReserveEmpty(Side::ASide))
        } else {
            pick(candidates(Side::ASide, a_side, color, prof), Scope::Single(Side::ASide))
        }
    } else {
        pick(
            candidates(Side::ASide, a_side, color, prof) + candidates(
                Side::IASide,
                ia_side,
                color,
                prof,
            ),
            Scope::Both,
        )
    }
}

fn same_candidate(x: &Candidate, y: &Candidate) -> (r: bool)
    ensures
        r == (*x == *y),
{
    x.0.same(&y.0) && x.1.same(&y.1)
}

/// Whether all candidates are equal, checked on each adjacent pair.
pub fn is_all_same(arr: &[Candidate]) -> (r: bool)
    ensures
        r == all_same(arr@),
{
    let mut i: usize = 1;
    while i < arr.len()
        invariant
            1 <= i,
            arr@.len() > 0 ==> i <= arr@.len(),
            forall|k: int| 0 <= k < i && k < arr@.len() ==> #[trigger] arr@[k] == arr@[0],
        decreases arr.len() - i,
    {
        if !same_candidate(&arr[i - 1], &arr[i]) {
            proof {
                assert(!(arr@[i - 1] == arr@[i as int]));
            }
            return false;
        }
        i = i + 1;
    }
    true
}

/// Appends to `out` the pieces of `reserve` that fit the hints, tagged with `side`.
fn collect_candidates(
    side: Side,
    reserve: &[Piece],
    color: Option<Color>,
    prof: Option<Profession>,
    out: &mut Vec<Candidate>,
)
    ensures
        final(out)@ == old(out)@ + candidates(side, reserve@, color, prof),
{
    let mut i: usize = 0;
    while i < reserve.len()
        invariant
            i <= reserve@.len(),
            out@ == old(out)@ + candidates(side, reserve@.subrange(0, i as int), color, prof),
        decreases reserve.len() - i,
    {
        let p = reserve[i];
        proof {
            assert(reserve@.subrange(0, i + 1).drop_last() == reserve@.subrange(0, i as int));
        }
        if matcher(p.color, color) && matcher(p.prof, prof) {
            out.push((side, p));
        }
        i = i + 1;
    }
    proof {
        assert(reserve@.subrange(0, reserve@.len() as int) == reserve@);
    }
}

/// Picks the outcome of a search over `cands`.
fn pick_from(cands: &Vec<Candidate>, scope: Scope) -> (r: Result<
    (Side, Color, Profession),
    ResolveError,
>)
    ensures
        r == pick(cands@, scope),
{
    if cands.len() == 0 {
        Err(ResolveError::NoMatch(scope))
    } else if is_all_same(cands.as_slice()) {
        let (s, p) = cands[0];
        Ok((s, p.color, p.prof))
    } else {
        Err(ResolveError::Ambiguous(scope))
    }
}

/// Resolves a drop: which side's reserve, and which color and profession.
///
/// All three hints together are taken as they are, without looking them up
/// in the reserves.
pub fn get_scp(
    opt_side: Option<Side>,
    opt_color: Option<Color>,
    opt_prof: Option<Profession>,
    a_side: &[Piece],
    ia_side: &[Piece],
) -> (r: Result<(Side, Color, Profession), ResolveError>)
    ensures
        r == resolution(opt_side, opt_color, opt_prof, a_side@, ia_side@),
{
    if a_side.len() == 0 && ia_side.len() == 0 {
        return Err(ResolveError::EmptyReserves);
    }
    if let (Some(s), Some(c), Some(p)) = (opt_side, opt_color, opt_prof) {
        return Ok((s, c, p));
    }
    let mut cands: Vec<Candidate> = Vec::new();
    if a_side.len() == 0 || matches!(opt_side, Some(Side::IASide)) {
        if ia_side.len() == 0 {
            return Err(ResolveError::SideReserveEmpty(Side::IASide));
        }
        collect_candidates(Side::IASide, ia_side, opt_color, opt_prof, &mut cands);
        pick_from(&cands, Scope::Single(Side::IASide))
    } else if ia_side.len() == 0 || matches!(opt_side, Some(Side::ASide)) {
        if a_side.len() == 0 {
            return Err(ResolveError::SideReserveEmpty(Side::ASide));
        }
        collect_candidates(Side::ASide, a_side, opt_color, opt_prof, &mut cands);
        pick_from(&cands, Scope::Single(Side::ASide))
    } else {
        collect_candidates(Side::ASide, a_side, opt_color, opt_prof, &mut cands);
        collect_candidates(Side::IASide, ia_side, opt_color, opt_prof, &mut cands);
        pick_from(&cands, Scope::Both)
    }
}

/// The text that reports a failed resolution.
pub open spec fn resolve_message(e: ResolveError) -> Seq<char> {
    match e {
        ResolveError::EmptyReserves => "No piece found in either sides' hop1zuo1"@,
        ResolveError::SideReserveEmpty(Side::IASide) => "No piece found in IASides' hop1zuo1"@,
        ResolveError::SideReserveEmpty(Side::ASide) => "No piece found in ASides' hop1zuo1"@,
        ResolveError::NoMatch(Scope::Single(Side::IASide)) =>
            "No piece in IASide's hop1zuo1 matches the description"@,
        ResolveError::NoMatch(Scope::Single(Side::ASide)) =>
            "No piece in ASide's hop1zuo1 matches the description"@,
        ResolveError::NoMatch(Scope::Both) => "No piece in hop1zuo1 matches the description"@,
        ResolveError::Ambiguous(Scope::Single(_)) =>
            "Not enough info to identify the piece. Add color/profession and try again"@,
        ResolveError::Ambiguous(Scope::Both) =>
            "Not enough info to identify the piece. Add side/color/profession and try again"@,
    }
}

impl ResolveError {
    /// The text that reports this failure to the player.
    pub fn message(&self) -> (r: &'static str)
        ensures
            r@ == resolve_message(*self),
    {
        match self {
            ResolveError::EmptyReserves => "No piece found in either sides' hop1zuo1",
            ResolveError::SideReserveEmpty(Side::IASide) => "No piece found in IASides' hop1zuo1",
            ResolveError::SideReserveEmpty(Side::ASide) => "No piece found in ASides' hop1zuo1",
            ResolveError::NoMatch(Scope::Single(Side::IASide)) =>
                "No piece in IASide's hop1zuo1 matches the description",
            ResolveError::NoMatch(Scope::Single(Side::ASide)) =>
                "No piece in ASide's hop1zuo1 matches the description",
            ResolveError::NoMatch(Scope::Both) => "No piece in hop1zuo1 matches the description",
            ResolveError::Ambiguous(Scope::Single(_)) =>
                "Not enough info to identify the piece. Add color/profession and try again",
            ResolveError::Ambiguous(Scope::Both) =>
                "Not enough info to identify the piece. Add side/color/profession and try again",
        }
    }
}

/// Resolution is a function of the hints and the reserves' contents: the
/// same snapshot and hints give the same outcome every time.
pub proof fn lemma_resolution_deterministic(
    side: Option<Side>,
    color: Option<Color>,
    prof: Option<Profession>,
    a_side: Seq<Piece>,
    ia_side: Seq<Piece>,
    a_again: Seq<Piece>,
    ia_again: Seq<Piece>,
)
    requires
        a_again =~= a_side,
        ia_again =~= ia_side,
    ensures
        resolution(side, color, prof, a_side, ia_side) == resolution(
            side,
            color,
            prof,
            a_again,
            ia_again,
        ),
{
}

/// With both reserves empty, resolution fails with `EmptyReserves`, whatever
/// the hints.
pub proof fn lemma_empty_reserves(
    side: Option<Side>,
    color: Option<Color>,
    prof: Option<Profession>,
    a_side: Seq<Piece>,
    ia_side: Seq<Piece>,
)
    requires
        a_side.len() == 0,
        ia_side.len() == 0,
    ensures
        resolution(side, color, prof, a_side, ia_side) == Err::<(Side, Color, Profession), ResolveError>(
            ResolveError::EmptyReserves,
        ),
{
}

/// Given all three hints, resolution takes them as they are, whether or not
/// such a piece is held, as long as some reserve is non-empty.
pub proof fn lemma_all_hints_trusted(
    side: Side,
    color: Color,
    prof: Profession,
    a_side: Seq<Piece>,
    ia_side: Seq<Piece>,
)
    requires
        a_side.len() > 0 || ia_side.len() > 0,
    ensures
        resolution(Some(side), Some(color), Some(prof), a_side, ia_side) == Ok::<
            (Side, Color, Profession),
            ResolveError,
        >((side, color, prof)),
{
}

proof fn lemma_candidates_held(
    side: Side,
    reserve: Seq<Piece>,
    color: Option<Color>,
    prof: Option<Profession>,
    i: int,
)
    requires
        0 <= i < candidates(side, reserve, color, prof).len(),
    ensures
        candidates(side, reserve, color, prof)[i].0 == side,
        reserve.contains(candidates(side, reserve, color, prof)[i].1),
        fits(candidates(side, reserve, color, prof)[i].1, color, prof),
    decreases reserve.len(),
{
    let rest = candidates(side, reserve.drop_last(), color, prof);
    if i < rest.len() {
        lemma_candidates_held(side, reserve.drop_last(), color, prof, i);
        let k = choose|k: int| 0 <= k < reserve.drop_last().len() && reserve.drop_last()[k] == rest[i].1;
        assert(reserve[k] == rest[i].1);
    } else {
        assert(reserve[reserve.len() - 1] == reserve.last());
    }
}

/// Unless all three hints were given, a resolved piece is one that the
/// resolved side holds in reserve, and it agrees with the color and
/// profession hints. A side hint is kept too, except that an A-side hint
/// with an empty A-side reserve falls back on the IA side.
pub proof fn lemma_resolved_piece_is_held(
    side: Option<Side>,
    color: Option<Color>,
    prof: Option<Profession>,
    a_side: Seq<Piece>,
    ia_side: Seq<Piece>,
    s: Side,
    c: Color,
    p: Profession,
)
    requires
        !(side.is_some() && color.is_some() && prof.is_some()),
        resolution(side, color, prof, a_side, ia_side) == Ok::<(Side, Color, Profession), ResolveError>(
            (s, c, p),
        ),
    ensures
        s == Side::ASide ==> a_side.contains(Piece { color: c, prof: p }),
        s == Side::IASide ==> ia_side.contains(Piece { color: c, prof: p }),
        fits(Piece { color: c, prof: p }, color, prof),
        side.is_some() && side != Some(s) ==> side == Some(Side::ASide) && a_side.len() == 0,
{
    let ca = candidates(Side::ASide, a_side, color, prof);
    let ci = candidates(Side::IASide, ia_side, color, prof);
    if a_side.len() == 0 || side == Some(Side::IASide) {
        lemma_candidates_held(Side::IASide, ia_side, color, prof, 0);
    } else if ia_side.len() == 0 || side == Some(Side::ASide) {
        lemma_candidates_held(Side::ASide, a_side, color, prof, 0);
    } else {
        match side {
            Some(Side::ASide) => {},
            Some(Side::IASide) => {},
            None => {},
        }
        let both = ca + ci;
        if ca.len() > 0 {
            assert(both[0] == ca[0]);
            lemma_candidates_held(Side::ASide, a_side, color, prof, 0);
        } else {
            assert(both[0] == ci[0]);
            lemma_candidates_held(Side::IASide, ia_side, color, prof, 0);
        }
    }
}

proof fn lemma_fitting_piece_is_candidate(
    side: Side,
    reserve: Seq<Piece>,
    color: Option<Color>,
    prof: Option<Profession>,
    x: Piece,
)
    requires
        reserve.contains(x),
        fits(x, color, prof),
    ensures
        candidates(side, reserve, color, prof).contains((side, x)),
    decreases reserve.len(),
{
    let rest = reserve.drop_last();
    let before = candidates(side, rest, color, prof);
    let after = candidates(side, reserve, color, prof);
    if rest.contains(x) {
        lemma_fitting_piece_is_candidate(side, rest, color, prof, x);
        let i = choose|i: int| 0 <= i < before.len() && before[i] == (side, x);
        assert(after[i] == (side, x));
    } else {
        let k = choose|k: int| 0 <= k < reserve.len() && reserve[k] == x;
        if k < reserve.len() - 1 {
            assert(rest[k] == x);
        }
        assert(after[after.len() - 1] == (side, x));
    }
}

proof fn lemma_candidate_elements(
    side: Side,
    reserve: Seq<Piece>,
    color: Option<Color>,
    prof: Option<Profession>,
    y: Candidate,
)
    ensures
        candidates(side, reserve, color, prof).contains(y) <==> (y.0 == side && reserve.contains(
            y.1,
        ) && fits(y.1, color, prof)),
{
    let cands = candidates(side, reserve, color, prof);
    if cands.contains(y) {
        let i = choose|i: int| 0 <= i < cands.len() && cands[i] == y;
        lemma_candidates_held(side, reserve, color, prof, i);
    }
    if y.0 == side && reserve.contains(y.1) && fits(y.1, color, prof) {
        lemma_fitting_piece_is_candidate(side, reserve, color, prof, y.1);
    }
}

proof fn lemma_pick_by_elements(l1: Seq<Candidate>, l2: Seq<Candidate>, scope: Scope)
    requires
        forall|y: Candidate| l1.contains(y) <==> l2.contains(y),
    ensures
        pick(l1, scope) == pick(l2, scope),
{
    if l1.len() > 0 {
        assert(l2.contains(l1[0]));
    }
    if l2.len() > 0 {
        assert(l1.contains(l2[0]));
    }
    if l1.len() > 0 && l2.len() > 0 {
        if all_same(l1) {
            lemma_all_same_by_elements(l1, l2);
        }
        if all_same(l2) {
            lemma_all_same_by_elements(l2, l1);
        }
        if all_same(l1) {
            let k = choose|k: int| 0 <= k < l1.len() && l1[k] == l2[0];
        }
    }
}

proof fn lemma_all_same_by_elements(l1: Seq<Candidate>, l2: Seq<Candidate>)
    requires
        forall|y: Candidate| l1.contains(y) <==> l2.contains(y),
        all_same(l1),
    ensures
        all_same(l2),
{
    assert forall|i: int, j: int| 0 <= i < l2.len() && 0 <= j < l2.len() implies l2[i] == l2[j] by {
        assert(l2.contains(l2[i]));
        assert(l2.contains(l2[j]));
        let ki = choose|k: int| 0 <= k < l1.len() && l1[k] == l2[i];
        let kj = choose|k: int| 0 <= k < l1.len() && l1[k] == l2[j];
    }
}

proof fn lemma_concat_elements(l1: Seq<Candidate>, l2: Seq<Candidate>, y: Candidate)
    ensures
        (l1 + l2).contains(y) <==> l1.contains(y) || l2.contains(y),
{
    let both = l1 + l2;
    if both.contains(y) {
        let i = choose|i: int| 0 <= i < both.len() && both[i] == y;
        if i < l1.len() {
            assert(l1[i] == y);
        } else {
            assert(l2[i - l1.len()] == y);
        }
    }
    if l1.contains(y) {
        let i = choose|i: int| 0 <= i < l1.len() && l1[i] == y;
        assert(both[i] == y);
    }
    if l2.contains(y) {
        let i = choose|i: int| 0 <= i < l2.len() && l2[i] == y;
        assert(both[i + l1.len()] == y);
    }
}

/// Only which pieces each reserve holds, and how many of each, matter to
/// resolution: reordering a reserve never changes the outcome.
pub proof fn lemma_resolution_ignores_order(
    side: Option<Side>,
    color: Option<Color>,
    prof: Option<Profession>,
    a_side: Seq<Piece>,
    ia_side: Seq<Piece>,
    a_shuffled: Seq<Piece>,
    ia_shuffled: Seq<Piece>,
)
    requires
        a_shuffled.to_multiset() == a_side.to_multiset(),
        ia_shuffled.to_multiset() == ia_side.to_multiset(),
    ensures
        resolution(side, color, prof, a_side, ia_side) == resolution(
            side,
            color,
            prof,
            a_shuffled,
            ia_shuffled,
        ),
{
    broadcast use vstd::seq_lib::group_to_multiset_ensures;

    assert(a_side.len() == a_side.to_multiset().len());
    assert(a_shuffled.len() == a_shuffled.to_multiset().len());
    assert(ia_side.len() == ia_side.to_multiset().len());
    assert(ia_shuffled.len() == ia_shuffled.to_multiset().len());
    let ca = candidates(Side::ASide, a_side, color, prof);
    let ci = candidates(Side::IASide, ia_side, color, prof);
    let ca2 = candidates(Side::ASide, a_shuffled, color, prof);
    let ci2 = candidates(Side::IASide, ia_shuffled, color, prof);
    assert forall|y: Candidate| ca.contains(y) <==> ca2.contains(y) by {
        lemma_candidate_elements(Side::ASide, a_side, color, prof, y);
        lemma_candidate_elements(Side::ASide, a_shuffled, color, prof, y);
        assert(a_side.contains(y.1) <==> a_side.to_multiset().count(y.1) > 0);
        assert(a_shuffled.contains(y.1) <==> a_shuffled.to_multiset().count(y.1) > 0);
    }
    assert forall|y: Candidate| ci.contains(y) <==> ci2.contains(y) by {
        lemma_candidate_elements(Side::IASide, ia_side, color, prof, y);
        lemma_candidate_elements(Side::IASide, ia_shuffled, color, prof, y);
        assert(ia_side.contains(y.1) <==> ia_side.to_multiset().count(y.1) > 0);
        assert(ia_shuffled.contains(y.1) <==> ia_shuffled.to_multiset().count(y.1) > 0);
    }
    assert forall|y: Candidate| (ca + ci).contains(y) <==> (ca2 + ci2).contains(y) by {
        lemma_concat_elements(ca, ci, y);
        lemma_concat_elements(ca2, ci2, y);
    }
    lemma_pick_by_elements(ca, ca2, Scope::Single(Side::ASide));
    lemma_pick_by_elements(ci, ci2, Scope::Single(Side::IASide));
    lemma_pick_by_elements(ca + ci, ca2 + ci2, Scope::Both);
}

} // verus!

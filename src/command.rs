//! The commands a player types, read into fully resolved actions.
//!
//! Each command line starts with the command's own name; its arguments follow.
//! Reading stops at the first problem, which is reported as a
//! [`CommandError`]; nothing is handed on to the board in that case.

use vstd::prelude::*;

use crate::coord::{coord_of, parse_coord, Coord};
use crate::descriptor::{descriptor_of, parse_descriptor, Descriptor};
use crate::piece::{color_name, profession_name, side_name, Color, Facet, Piece, Profession, Side};
use crate::resolve::{get_scp, resolution, resolve_message, ResolveError};
use crate::tokens::{split_words, texts, words};

verus! {

/// An action on the board with nothing left open.
#[derive(Clone, Copy, Debug, PartialEq, Eq, Structural)]
pub enum ResolvedAction {
    /// Move the piece on `src` to the empty square `dst`.
    Move { src: Coord, dst: Coord },
    /// Put a piece from `side`'s reserve on the empty square `dst`.
    Drop { dst: Coord, side: Side, color: Color, prof: Profession },
    /// Send the piece on `src` to the reserve of its opponent.
    Capture { src: Coord },
    /// Lift the piece on `src` onto the occupied square `dst`.
    StepUp { src: Coord, dst: Coord },
    /// Bring the lifted piece down on the empty square `dst`.
    StepDown { dst: Coord },
}

/// The side, color and profession that the descriptors of a drop name.
#[derive(Clone, Copy, Debug, PartialEq, Eq, Structural)]
pub struct Hints {
    pub side: Option<Side>,
    pub color: Option<Color>,
    pub prof: Option<Profession>,
}

/// Which argument of a command: the first or the second after its name.
#[derive(Clone, Copy, Debug, PartialEq, Eq, Structural)]
pub enum Argument {
    First,
    Second,
}

/// The index among a line's tokens of an argument.
pub open spec fn argument_index(a: Argument) -> nat {
    match a {
        Argument::First => 1,
        Argument::Second => 2,
    }
}

/// Why a command line was not turned into an action.
#[derive(Clone, Debug, PartialEq, Eq)]
pub enum CommandError {
    /// Too few arguments: `got` counts the arguments after the command name.
    Arity { expected: usize, got: usize },
    /// The argument is not a square.
    NotACoordinate { argument: Argument, token: String },
    /// Two different professions were named.
    ConflictingProfession(Profession, Profession),
    /// Two different colors were named.
    ConflictingColor(Color, Color),
    /// Two different sides were named.
    ConflictingSide(Side, Side),
    /// A descriptor that no synonym table holds.
    Unrecognizable(String),
    /// The drop could not be resolved to one piece.
    Resolve(ResolveError),
}

/// [`CommandError`] with its strings as character sequences.
pub enum CommandFault {
    Arity { expected: nat, got: nat },
    NotACoordinate { argument: Argument, token: Seq<char> },
    ConflictingProfession(Profession, Profession),
    ConflictingColor(Color, Color),
    ConflictingSide(Side, Side),
    Unrecognizable(Seq<char>),
    Resolve(ResolveError),
}

impl View for CommandError {
    type V = CommandFault;

    open spec fn view(&self) -> CommandFault {
        match self {
            CommandError::Arity { expected, got } => CommandFault::Arity {
                expected: *expected as nat,
                got: *got as nat,
            },
            CommandError::NotACoordinate { argument, token } => CommandFault::NotACoordinate {
                argument: *argument,
                token: token@,
            },
            CommandError::ConflictingProfession(a, b) => CommandFault::ConflictingProfession(*a, *b),
            CommandError::ConflictingColor(a, b) => CommandFault::ConflictingColor(*a, *b),
            CommandError::ConflictingSide(a, b) => CommandFault::ConflictingSide(*a, *b),
            CommandError::Unrecognizable(t) => CommandFault::Unrecognizable(t@),
            CommandError::Resolve(e) => CommandFault::Resolve(*e),
        }
    }
}

/// A result with its error seen through [`CommandError`]'s view.
pub open spec fn outcome<T>(r: Result<T, CommandError>) -> Result<T, CommandFault> {
    match r {
        Ok(v) => Ok(v),
        Err(e) => Err(e@),
    }
}

/// The number of arguments reported for a line of `n` tokens: all but the
/// command name.
pub open spec fn arguments(n: nat) -> nat {
    if n == 0 {
        0
    } else {
        (n - 1) as nat
    }
}

/// Accepts `tokens` when more than `how_many` came, the command name being
/// the first; otherwise reports how many arguments came.
pub open spec fn arity(tokens: Seq<Seq<char>>, how_many: nat) -> Result<(), CommandFault> {
    if tokens.len() > how_many {
        Ok(())
    } else {
        Err(CommandFault::Arity { expected: how_many, got: arguments(tokens.len()) })
    }
}

/// Checks that more than `how_many_expected` tokens came, and hands them back.
pub fn expect_at_least_how_many(tokens: Vec<String>, how_many_expected: usize) -> (r: Result<
    Vec<String>,
    CommandError,
>)
    ensures
        match arity(texts(tokens@), how_many_expected as nat) {
            Ok(()) => r == Ok::<Vec<String>, CommandError>(tokens),
            Err(e) => r.is_err() && r.unwrap_err()@ == e,
        },
{
    if tokens.len() > how_many_expected {
        Ok(tokens)
    } else {
        let got: usize = if tokens.len() == 0 {
            0
        } else {
            tokens.len() - 1
        };
        Err(CommandError::Arity { expected: how_many_expected, got })
    }
}

/// The square that an argument names.
pub open spec fn coordinate_at(tokens: Seq<Seq<char>>, argument: Argument) -> Result<
    Coord,
    CommandFault,
> {
    let t = tokens[argument_index(argument) as int];
    match coord_of(t) {
        Some(c) => Ok(c),
        None => Err(CommandFault::NotACoordinate { argument, token: t }),
    }
}

fn coordinate(tokens: &Vec<String>, argument: Argument) -> (r: Result<Coord, CommandError>)
    requires
        argument_index(argument) < tokens@.len(),
    ensures
        outcome(r) == coordinate_at(texts(tokens@), argument),
{
    let i: usize = match argument {
        Argument::First => 1,
        Argument::Second => 2,
    };
    match parse_coord(tokens[i].as_str()) {
        Some(c) => Ok(c),
        None => Err(CommandError::NotACoordinate { argument, token: tokens[i].clone() }),
    }
}

/// No descriptor read yet.
pub open spec fn no_hints() -> Hints {
    Hints { side: None, color: None, prof: None }
}

/// `h` with one more descriptor: a value already given must not change.
pub open spec fn add_descriptor(h: Hints, d: Descriptor) -> Result<Hints, CommandFault> {
    match d {
        Descriptor::Profession(p) => match h.prof {
            None => Ok(Hints { prof: Some(p), ..h }),
            Some(q) => if q == p {
                Ok(h)
            } else {
                Err(CommandFault::ConflictingProfession(q, p))
            },
        },
        Descriptor::Color(c) => match h.color {
            None => Ok(Hints { color: Some(c), ..h }),
            Some(q) => if q == c {
                Ok(h)
            } else {
                Err(CommandFault::ConflictingColor(q, c))
            },
        },
        Descriptor::Side(s) => match h.side {
            None => Ok(Hints { side: Some(s), ..h }),
            Some(q) => if q == s {
                Ok(h)
            } else {
                Err(CommandFault::ConflictingSide(q, s))
            },
        },
    }
}

/// The hints that descriptor tokens give, read from left to right, or the
/// first problem met.
pub open spec fn gather(ts: Seq<Seq<char>>) -> Result<Hints, CommandFault>
    decreases ts.len(),
{
    if ts.len() == 0 {
        Ok(no_hints())
    } else {
        match gather(ts.drop_last()) {
            Err(e) => Err(e),
            Ok(h) => match descriptor_of(ts.last()) {
                None => Err(CommandFault::Unrecognizable(ts.last())),
                Some(d) => add_descriptor(h, d),
            },
        }
    }
}

proof fn lemma_gather_stops(ts: Seq<Seq<char>>, k: int)
    requires
        0 <= k <= ts.len(),
        gather(ts.subrange(0, k)).is_err(),
    ensures
        gather(ts) == gather(ts.subrange(0, k)),
    decreases ts.len() - k,
{
    if k < ts.len() {
        assert(ts.subrange(0, k + 1).drop_last() =~= ts.subrange(0, k));
        lemma_gather_stops(ts, k + 1);
    } else {
        assert(ts.subrange(0, k) =~= ts);
    }
}

/// Whether the hints hold what a descriptor says.
pub open spec fn holds(h: Hints, d: Descriptor) -> bool {
    match d {
        Descriptor::Profession(p) => h.prof == Some(p),
        Descriptor::Color(c) => h.color == Some(c),
        Descriptor::Side(s) => h.side == Some(s),
    }
}

/// Gathering never overwrites: when it succeeds, every descriptor token
/// read agrees with the hints, so a later token that differs from an earlier
/// one on the same axis is always an error.
pub proof fn lemma_gather_keeps_every_descriptor(ts: Seq<Seq<char>>, h: Hints, i: int)
    requires
        gather(ts) == Ok::<Hints, CommandFault>(h),
        0 <= i < ts.len(),
    ensures
        descriptor_of(ts[i]) matches Some(d) && holds(h, d),
    decreases ts.len(),
{
    let rest = ts.drop_last();
    if i < ts.len() - 1 {
        if let Ok(h0) = gather(rest) {
            lemma_gather_keeps_every_descriptor(rest, h0, i);
            assert(rest[i] == ts[i]);
        }
    }
}

fn add_to(h: Hints, d: Descriptor) -> (r: Result<Hints, CommandError>)
    ensures
        outcome(r) == add_descriptor(h, d),
{
    match d {
        Descriptor::Profession(p) => match h.prof {
            None => Ok(Hints { prof: Some(p), ..h }),
            Some(q) => if q.same(&p) {
                Ok(h)
            } else {
                Err(CommandError::ConflictingProfession(q, p))
            },
        },
        Descriptor::Color(c) => match h.color {
            None => Ok(Hints { color: Some(c), ..h }),
            Some(q) => if q.same(&c) {
                Ok(h)
            } else {
                Err(CommandError::ConflictingColor(q, c))
            },
        },
        Descriptor::Side(s) => match h.side {
            None => Ok(Hints { side: Some(s), ..h }),
            Some(q) => if q.same(&s) {
                Ok(h)
            } else {
                Err(CommandError::ConflictingSide(q, s))
            },
        },
    }
}

/// Reads the tokens from index `from` on as descriptors of a piece.
pub fn gather_hints(tokens: &Vec<String>, from: usize) -> (r: Result<Hints, CommandError>)
    requires
        from <= tokens@.len(),
    ensures
        outcome(r) == gather(texts(tokens@).subrange(from as int, tokens@.len() as int)),
{
    let ghost ts = texts(tokens@);
    let ghost rest = ts.subrange(from as int, tokens@.len() as int);
    let mut h = Hints { side: None, color: None, prof: None };
    let mut i: usize = from;
    while i < tokens.len()
        invariant
            from <= i <= tokens@.len(),
            ts == texts(tokens@),
            rest == ts.subrange(from as int, tokens@.len() as int),
            gather(rest.subrange(0, i - from)) == Ok::<Hints, CommandFault>(h),
        decreases tokens.len() - i,
    {
        let ghost seen = rest.subrange(0, i - from);
        let ghost next = rest.subrange(0, i + 1 - from);
        proof {
            assert(next.drop_last() =~= seen);
            assert(next.last() == tokens@[i as int]@);
        }
        match parse_descriptor(tokens[i].as_str()) {
            None => {
                proof {
                    lemma_gather_stops(rest, i + 1 - from);
                }
                return Err(CommandError::Unrecognizable(tokens[i].clone()));
            },
            Some(d) => match add_to(h, d) {
                Err(e) => {
                    proof {
                        lemma_gather_stops(rest, i + 1 - from);
                    }
                    return Err(e);
                },
                Ok(h2) => {
                    h = h2;
                },
            },
        }
        i = i + 1;
    }
    proof {
        assert(rest.subrange(0, i - from) =~= rest);
    }
    Ok(h)
}

/// A move: two squares, the piece's square and then the empty destination.
pub open spec fn mov_outcome(ts: Seq<Seq<char>>) -> Result<ResolvedAction, CommandFault> {
    match arity(ts, 2) {
        Err(e) => Err(e),
        Ok(()) => match coordinate_at(ts, Argument::First) {
            Err(e) => Err(e),
            Ok(src) => match coordinate_at(ts, Argument::Second) {
                Err(e) => Err(e),
                Ok(dst) => Ok(ResolvedAction::Move { src, dst }),
            },
        },
    }
}

/// A step up: the piece's square, then the occupied square it steps on.
pub open spec fn stepup_outcome(ts: Seq<Seq<char>>) -> Result<ResolvedAction, CommandFault> {
    match arity(ts, 2) {
        Err(e) => Err(e),
        Ok(()) => match coordinate_at(ts, Argument::First) {
            Err(e) => Err(e),
            Ok(src) => match coordinate_at(ts, Argument::Second) {
                Err(e) => Err(e),
                Ok(dst) => Ok(ResolvedAction::StepUp { src, dst }),
            },
        },
    }
}

/// A capture: the square of the piece taken.
pub open spec fn capture_outcome(ts: Seq<Seq<char>>) -> Result<ResolvedAction, CommandFault> {
    match arity(ts, 1) {
        Err(e) => Err(e),
        Ok(()) => match coordinate_at(ts, Argument::First) {
            Err(e) => Err(e),
            Ok(src) => Ok(ResolvedAction::Capture { src }),
        },
    }
}

/// A step down: the empty square the lifted piece comes down on.
pub open spec fn stepdown_outcome(ts: Seq<Seq<char>>) -> Result<ResolvedAction, CommandFault> {
    match arity(ts, 1) {
        Err(e) => Err(e),
        Ok(()) => match coordinate_at(ts, Argument::First) {
            Err(e) => Err(e),
            Ok(dst) => Ok(ResolvedAction::StepDown { dst }),
        },
    }
}

/// A drop: the destination square, then descriptors of the piece, resolved
/// against the A-side and IA-side reserves.
pub open spec fn parachute_outcome(
    ts: Seq<Seq<char>>,
    a_side: Seq<Piece>,
    ia_side: Seq<Piece>,
) -> Result<ResolvedAction, CommandFault> {
    match arity(ts, 1) {
        Err(e) => Err(e),
        Ok(()) => match coordinate_at(ts, Argument::First) {
            Err(e) => Err(e),
            Ok(dst) => match gather(ts.subrange(2, ts.len() as int)) {
                Err(e) => Err(e),
                Ok(h) => match resolution(h.side, h.color, h.prof, a_side, ia_side) {
                    Err(e) => Err(CommandFault::Resolve(e)),
                    Ok((side, color, prof)) => Ok(ResolvedAction::Drop { dst, side, color, prof }),
                },
            },
        },
    }
}

/// Reads a move command line.
pub fn mov(line: &str) -> (r: Result<ResolvedAction, CommandError>)
    ensures
        outcome(r) == mov_outcome(words(line@)),
{
    let tokens = match expect_at_least_how_many(split_words(line), 2) {
        Ok(t) => t,
        Err(e) => return Err(e),
    };
    let src = match coordinate(&tokens, Argument::First) {
        Ok(c) => c,
        Err(e) => return Err(e),
    };
    let dst = match coordinate(&tokens, Argument::Second) {
        Ok(c) => c,
        Err(e) => return Err(e),
    };
    Ok(ResolvedAction::Move { src, dst })
}

/// Reads a step-up command line.
pub fn stepup(line: &str) -> (r: Result<ResolvedAction, CommandError>)
    ensures
        outcome(r) == stepup_outcome(words(line@)),
{
    let tokens = match expect_at_least_how_many(split_words(line), 2) {
        Ok(t) => t,
        Err(e) => return Err(e),
    };
    let src = match coordinate(&tokens, Argument::First) {
        Ok(c) => c,
        Err(e) => return Err(e),
    };
    let dst = match coordinate(&tokens, Argument::Second) {
        Ok(c) => c,
        Err(e) => return Err(e),
    };
    Ok(ResolvedAction::StepUp { src, dst })
}

/// Reads a capture command line.
pub fn capture(line: &str) -> (r: Result<ResolvedAction, CommandError>)
    ensures
        outcome(r) == capture_outcome(words(line@)),
{
    let tokens = match expect_at_least_how_many(split_words(line), 1) {
        Ok(t) => t,
        Err(e) => return Err(e),
    };
    match coordinate(&tokens, Argument::First) {
        Ok(src) => Ok(ResolvedAction::Capture { src }),
        Err(e) => Err(e),
    }
}

/// Reads a step-down command line.
pub fn stepdown(line: &str) -> (r: Result<ResolvedAction, CommandError>)
    ensures
        outcome(r) == stepdown_outcome(words(line@)),
{
    let tokens = match expect_at_least_how_many(split_words(line), 1) {
        Ok(t) => t,
        Err(e) => return Err(e),
    };
    match coordinate(&tokens, Argument::First) {
        Ok(dst) => Ok(ResolvedAction::StepDown { dst }),
        Err(e) => Err(e),
    }
}

/// Reads a drop command line and resolves the piece against a snapshot of
/// the two reserves.
pub fn parachute(line: &str, a_side: &[Piece], ia_side: &[Piece]) -> (r: Result<
    ResolvedAction,
    CommandError,
>)
    ensures
        outcome(r) == parachute_outcome(words(line@), a_side@, ia_side@),
{
    let tokens = match expect_at_least_how_many(split_words(line), 1) {
        Ok(t) => t,
        Err(e) => return Err(e),
    };
    let dst = match coordinate(&tokens, Argument::First) {
        Ok(c) => c,
        Err(e) => return Err(e),
    };
    let h = match gather_hints(&tokens, 2) {
        Ok(h) => h,
        Err(e) => return Err(e),
    };
    match get_scp(h.side, h.color, h.prof, a_side, ia_side) {
        Err(e) => Err(CommandError::Resolve(e)),
        Ok((side, color, prof)) => Ok(ResolvedAction::Drop { dst, side, color, prof }),
    }
}

/// A decimal digit.
pub open spec fn digit(d: nat) -> char {
    if d == 0 {
        '0'
    } else if d == 1 {
        '1'
    } else if d == 2 {
        '2'
    } else if d == 3 {
        '3'
    } else if d == 4 {
        '4'
    } else if d == 5 {
        '5'
    } else if d == 6 {
        '6'
    } else if d == 7 {
        '7'
    } else if d == 8 {
        '8'
    } else {
        '9'
    }
}

/// A number in decimal, without sign or leading zeros.
pub open spec fn decimal(n: nat) -> Seq<char>
    decreases n,
{
    if n < 10 {
        seq![digit(n)]
    } else {
        decimal(n / 10).push(digit(n % 10))
    }
}

/// Relies on `ToString` through the `Display` impl of `usize`, which writes
/// the number in decimal digits, without sign or leading zeros.
#[verifier::external_body]
fn decimal_text(n: usize) -> (r: String)
    ensures
        r@ == decimal(n as nat),
{
    n.to_string()
}

/// How an argument is called in messages.
pub open spec fn ordinal(a: Argument) -> Seq<char> {
    match a {
        Argument::First => "first"@,
        Argument::Second => "second"@,
    }
}

/// The text that reports a failed command to the player.
pub open spec fn command_message(e: CommandFault) -> Seq<char> {
    match e {
        CommandFault::Arity { expected, got } => "Not enough arguments. Expected: "@ + decimal(
            expected,
        ) + ", got: "@ + decimal(got),
        CommandFault::NotACoordinate { argument, token } => "The "@ + ordinal(argument)
            + " argument is incorrect. Expected a coordinate, got: "@ + token,
        CommandFault::ConflictingProfession(a, b) => "conflicting profession info: "@
            + profession_name(a) + " and "@ + profession_name(b),
        CommandFault::ConflictingColor(a, b) => "conflicting color info: "@ + color_name(a)
            + " and "@ + color_name(b),
        CommandFault::ConflictingSide(a, b) => "conflicting side info: "@ + side_name(a)
            + " and "@ + side_name(b),
        CommandFault::Unrecognizable(t) => "unrecognizable option: "@ + t,
        CommandFault::Resolve(e) => resolve_message(e),
    }
}

fn joined(a: &str, b: &str, c: &str, d: &str) -> (r: String)
    ensures
        r@ == a@ + b@ + c@ + d@,
{
    let mut s = String::from_str(a);
    s.append(b);
    s.append(c);
    s.append(d);
    s
}

impl CommandError {
    /// The text that reports this failure to the player.
    pub fn message(&self) -> (r: String)
        ensures
            r@ == command_message(self@),
    {
        match self {
            CommandError::Arity { expected, got } => {
                let e = decimal_text(*expected);
                let g = decimal_text(*got);
                joined("Not enough arguments. Expected: ", e.as_str(), ", got: ", g.as_str())
            },
            CommandError::NotACoordinate { argument, token } => {
                let which = match argument {
                    Argument::First => "first",
                    Argument::Second => "second",
                };
                joined(
                    "The ",
                    which,
                    " argument is incorrect. Expected a coordinate, got: ",
                    token.as_str(),
                )
            },
            CommandError::ConflictingProfession(a, b) => joined(
                "conflicting profession info: ",
                a.name(),
                " and ",
                b.name(),
            ),
            CommandError::ConflictingColor(a, b) => joined(
                "conflicting color info: ",
                a.name(),
                " and ",
                b.name(),
            ),
            CommandError::ConflictingSide(a, b) => joined(
                "conflicting side info: ",
                a.name(),
                " and ",
                b.name(),
            ),
            CommandError::Unrecognizable(t) => {
                let mut s = String::from_str("unrecognizable option: ");
                s.append(t.as_str());
                s
            },
            CommandError::Resolve(e) => String::from_str(e.message()),
        }
    }
}

} // verus!

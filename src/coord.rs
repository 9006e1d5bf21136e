//! Board coordinates: a column letter followed by a row name, as in `KA`,
//! `ZO` or `LIA`. Both parts are case-sensitive.

use vstd::prelude::*;

verus! {

/// The nine rows, from the A side's back row to the IA side's.
#[derive(Clone, Copy, Debug, PartialEq, Eq, Structural)]
pub enum Row {
    A,
    E,
    I,
    U,
    O,
    Y,
    AI,
    AU,
    IA,
}

/// The nine columns.
#[derive(Clone, Copy, Debug, PartialEq, Eq, Structural)]
pub enum Column {
    K,
    L,
    N,
    T,
    Z,
    X,
    C,
    M,
    P,
}

/// A square of the board: its row and its column.
#[derive(Clone, Copy, Debug, PartialEq, Eq, Structural)]
pub struct Coord(pub Row, pub Column);

/// The column a letter names.
pub open spec fn column_of(c: char) -> Option<Column> {
    if c == 'K' {
        Some(Column::K)
    } else if c == 'L' {
        Some(Column::L)
    } else if c == 'N' {
        Some(Column::N)
    } else if c == 'T' {
        Some(Column::T)
    } else if c == 'Z' {
        Some(Column::Z)
    } else if c == 'X' {
        Some(Column::X)
    } else if c == 'C' {
        Some(Column::C)
    } else if c == 'M' {
        Some(Column::M)
    } else if c == 'P' {
        Some(Column::P)
    } else {
        None
    }
}

/// The row a name names; a name is matched as a whole.
pub open spec fn row_of(s: Seq<char>) -> Option<Row> {
    if s.len() == 1 {
        if s[0] == 'A' {
            Some(Row::A)
        } else if s[0] == 'E' {
            Some(Row::E)
        } else if s[0] == 'I' {
            Some(Row::I)
        } else if s[0] == 'U' {
            Some(Row::U)
        } else if s[0] == 'O' {
            Some(Row::O)
        } else if s[0] == 'Y' {
            Some(Row::Y)
        } else {
            None
        }
    } else if s.len() == 2 {
        if s[0] == 'A' && s[1] == 'I' {
            Some(Row::AI)
        } else if s[0] == 'A' && s[1] == 'U' {
            Some(Row::AU)
        } else if s[0] == 'I' && s[1] == 'A' {
            Some(Row::IA)
        } else {
            None
        }
    } else {
        None
    }
}

/// The square a token names, if it names one: a column letter, then a row name.
pub open spec fn coord_of(s: Seq<char>) -> Option<Coord> {
    if s.len() >= 2 {
        match (column_of(s[0]), row_of(s.subrange(1, s.len() as int))) {
            (Some(c), Some(r)) => Some(Coord(r, c)),
            _ => None,
        }
    } else {
        None
    }
}

/// The letter of a column.
pub open spec fn column_letter(c: Column) -> char {
    match c {
        Column::K => 'K',
        Column::L => 'L',
        Column::N => 'N',
        Column::T => 'T',
        Column::Z => 'Z',
        Column::X => 'X',
        Column::C => 'C',
        Column::M => 'M',
        Column::P => 'P',
    }
}

/// The name of a row.
pub open spec fn row_name(r: Row) -> Seq<char> {
    match r {
        Row::A => seq!['A'],
        Row::E => seq!['E'],
        Row::I => seq!['I'],
        Row::U => seq!['U'],
        Row::O => seq!['O'],
        Row::Y => seq!['Y'],
        Row::AI => seq!['A', 'I'],
        Row::AU => seq!['A', 'U'],
        Row::IA => seq!['I', 'A'],
    }
}

/// The canonical token of a square.
pub open spec fn coord_token(c: Coord) -> Seq<char> {
    seq![column_letter(c.1)] + row_name(c.0)
}

/// The position of a row in the declaration order of the row enumeration.
pub open spec fn row_index(r: Row) -> u8 {
    match r {
        Row::A => 0,
        Row::E => 1,
        Row::I => 2,
        Row::U => 3,
        Row::O => 4,
        Row::Y => 5,
        Row::AI => 6,
        Row::AU => 7,
        Row::IA => 8,
    }
}

/// The position of a column in the declaration order of the column enumeration.
pub open spec fn column_index(c: Column) -> u8 {
    match c {
        Column::K => 0,
        Column::L => 1,
        Column::N => 2,
        Column::T => 3,
        Column::Z => 4,
        Column::X => 5,
        Column::C => 6,
        Column::M => 7,
        Column::P => 8,
    }
}

/// A square as the positions of its row and its column.
pub open spec fn coord_indices(c: Option<Coord>) -> Option<(u8, u8)> {
    match c {
        Some(Coord(r, k)) => Some((row_index(r), column_index(k))),
        None => None,
    }
}

/// Relies on cetkaik_naive_representation's `absolute::parse_coord`, which
/// reads a column letter followed by a whole row name and nothing else. Its
/// row and column enumerations are declared in the same order as ours, so
/// each value is handed over as its position.
#[verifier::external_body]
fn parse_coord_positions(s: &str) -> (r: Option<(u8, u8)>)
    ensures
        r == coord_indices(coord_of(s@)),
{
    cetkaik_naive_representation::absolute::parse_coord(s).map(|c| (c.0 as u8, c.1 as u8))
}

impl Row {
    fn from_index(i: u8) -> (r: Option<Row>)
        ensures
            i < 9 ==> r.is_some() && row_index(r.unwrap()) == i,
            i >= 9 ==> r.is_none(),
    {
        match i {
            0 => Some(Row::A),
            1 => Some(Row::E),
            2 => Some(Row::I),
            3 => Some(Row::U),
            4 => Some(Row::O),
            5 => Some(Row::Y),
            6 => Some(Row::AI),
            7 => Some(Row::AU),
            8 => Some(Row::IA),
            _ => None,
        }
    }
}

impl Column {
    fn from_index(i: u8) -> (r: Option<Column>)
        ensures
            i < 9 ==> r.is_some() && column_index(r.unwrap()) == i,
            i >= 9 ==> r.is_none(),
    {
        match i {
            0 => Some(Column::K),
            1 => Some(Column::L),
            2 => Some(Column::N),
            3 => Some(Column::T),
            4 => Some(Column::Z),
            5 => Some(Column::X),
            6 => Some(Column::C),
            7 => Some(Column::M),
            8 => Some(Column::P),
            _ => None,
        }
    }
}

proof fn lemma_row_index_injective(a: Row, b: Row)
    requires
        row_index(a) == row_index(b),
    ensures
        a == b,
{
}

proof fn lemma_column_index_injective(a: Column, b: Column)
    requires
        column_index(a) == column_index(b),
    ensures
        a == b,
{
}

/// Parses a token as a square; anything else is `None`.
pub fn parse_coord(s: &str) -> (r: Option<Coord>)
    ensures
        r == coord_of(s@),
{
    match parse_coord_positions(s) {
        None => None,
        Some((ri, ci)) => {
            let row = Row::from_index(ri);
            let column = Column::from_index(ci);
            match (row, column) {
                (Some(row), Some(column)) => {
                    proof {
                        let c = coord_of(s@).unwrap();
                        lemma_row_index_injective(row, c.0);
                        lemma_column_index_injective(column, c.1);
                    }
                    Some(Coord(row, column))
                },
                _ => {
                    proof {
                        let c = coord_of(s@).unwrap();
                        assert(row_index(c.0) < 9 && column_index(c.1) < 9);
                    }
                    None
                },
            }
        },
    }
}

/// Every square is read back from its canonical token.
pub proof fn lemma_coord_round_trip(c: Coord)
    ensures
        coord_of(coord_token(c)) == Some(c),
{
    let t = coord_token(c);
    assert(t.subrange(1, t.len() as int) =~= row_name(c.0));
    assert(t[0] == column_letter(c.1));
    assert(column_of(column_letter(c.1)) == Some(c.1));
}

/// A token that names a square is that square's canonical token: no two
/// tokens name the same square.
pub proof fn lemma_coord_token_unique(s: Seq<char>, c: Coord)
    requires
        coord_of(s) == Some(c),
    ensures
        s == coord_token(c),
{
    let rest = s.subrange(1, s.len() as int);
    assert(rest =~= row_name(c.0));
    assert(s =~= seq![s[0]] + rest);
}

} // verus!

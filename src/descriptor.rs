//! Piece descriptors: a token read as a profession, a color or a side.
//!
//! Professions and colors are matched on the lowercased token, so `Pawn` and
//! `pawn` agree; sides are matched exactly, as `A` or `IA`.

use vstd::prelude::*;

use crate::piece::{Color, Profession, Side};

verus! {

/// What a descriptor token tells about a piece.
#[derive(Clone, Copy, Debug, PartialEq, Eq, Structural)]
pub enum Descriptor {
    Profession(Profession),
    Color(Color),
    Side(Side),
}

/// What `str::to_lowercase` returns for a string. Profession and color
/// tokens are looked up in this form.
pub uninterp spec fn lower_of(s: Seq<char>) -> Seq<char>;

/// The profession a lowercased token names, by the synonym table.
pub open spec fn profession_synonym(t: Seq<char>) -> Option<Profession> {
    if t == "vessel"@ || t == "船"@ || t == "felkana"@ || t == "nuak1"@ || t == "muak1"@ || t
        == "pelkana"@ || t == "pijume"@ || t == "muak"@ {
        Some(Profession::Nuak1)
    } else if t == "pawn"@ || t == "兵"@ || t == "elmer"@ || t == "kauk2"@ || t == "elme"@ || t
        == "kauk"@ {
        Some(Profession::Kauk2)
    } else if t == "rook"@ || t == "弓"@ || t == "gustuer"@ || t == "gua2"@ || t == "kucte"@ || t
        == "kuctu"@ {
        Some(Profession::Gua2)
    } else if t == "bishop"@ || t == "車"@ || t == "车"@ || t == "vadyrd"@ || t == "kaun1"@ || t
        == "badut"@ || t == "xije"@ || t == "kaun"@ {
        Some(Profession::Kaun1)
    } else if t == "tiger"@ || t == "虎"@ || t == "stistyst"@ || t == "dau2"@ || t == "cictus"@
        || t == "cucit"@ || t == "dau"@ {
        Some(Profession::Dau2)
    } else if t == "horse"@ || t == "馬"@ || t == "马"@ || t == "dodor"@ || t == "maun1"@ || t
        == "dodo"@ || t == "maun"@ {
        Some(Profession::Maun1)
    } else if t == "clerk"@ || t == "筆"@ || t == "笔"@ || t == "kua"@ || t == "kua2"@ || t
        == "kuwa"@ {
        Some(Profession::Kua2)
    } else if t == "shaman"@ || t == "巫"@ || t == "terlsk"@ || t == "tuk2"@ || t == "tamcuk"@
        || t == "tancuk"@ {
        Some(Profession::Tuk2)
    } else if t == "general"@ || t == "将"@ || t == "varxle"@ || t == "uai1"@ || t == "baxule"@
        || t == "xan"@ || t == "wai"@ {
        Some(Profession::Uai1)
    } else if t == "king"@ || t == "王"@ || t == "ales"@ || t == "io"@ || t == "xet"@ || t
        == "caupla"@ {
        Some(Profession::Io)
    } else {
        None
    }
}

/// The color a lowercased token names, by the synonym table.
pub open spec fn color_synonym(t: Seq<char>) -> Option<Color> {
    if t == "red"@ || t == "赤"@ || t == "kok1"@ || t == "红"@ || t == "紅"@ {
        Some(Color::Kok1)
    } else if t == "black"@ || t == "黒"@ || t == "huok2"@ || t == "黑"@ {
        Some(Color::Huok2)
    } else {
        None
    }
}

/// The side a token names; the match is case-sensitive.
pub open spec fn side_synonym(t: Seq<char>) -> Option<Side> {
    if t == "A"@ {
        Some(Side::ASide)
    } else if t == "IA"@ {
        Some(Side::IASide)
    } else {
        None
    }
}

/// The position of a profession in the declaration order of the enumeration.
pub open spec fn profession_index(p: Profession) -> u8 {
    match p {
        Profession::Nuak1 => 0,
        Profession::Kauk2 => 1,
        Profession::Gua2 => 2,
        Profession::Kaun1 => 3,
        Profession::Dau2 => 4,
        Profession::Maun1 => 5,
        Profession::Kua2 => 6,
        Profession::Tuk2 => 7,
        Profession::Uai1 => 8,
        Profession::Io => 9,
    }
}

/// The position of a color in the declaration order of the enumeration.
pub open spec fn color_index(c: Color) -> u8 {
    match c {
        Color::Kok1 => 0,
        Color::Huok2 => 1,
    }
}

/// The position of a side in the declaration order of the enumeration.
pub open spec fn side_index(s: Side) -> u8 {
    match s {
        Side::ASide => 0,
        Side::IASide => 1,
    }
}

/// An optional profession as its position.
pub open spec fn profession_position(p: Option<Profession>) -> Option<u8> {
    match p {
        Some(p) => Some(profession_index(p)),
        None => None,
    }
}

/// An optional color as its position.
pub open spec fn color_position(c: Option<Color>) -> Option<u8> {
    match c {
        Some(c) => Some(color_index(c)),
        None => None,
    }
}

/// An optional side as its position.
pub open spec fn side_position(s: Option<Side>) -> Option<u8> {
    match s {
        Some(s) => Some(side_index(s)),
        None => None,
    }
}

/// Relies on cetkaik_fundamental's `FromStr` for `Profession`, which
/// lowercases the token with `str::to_lowercase` and looks it up in its
/// synonym table. The enumerations are declared in the same order, so the
/// profession is handed over as its position.
#[verifier::external_body]
fn profession_position_of(s: &str) -> (r: Option<u8>)
    ensures
        r == profession_position(profession_synonym(lower_of(s@))),
{
    s.parse::<cetkaik_fundamental::Profession>().ok().map(|p| p as u8)
}

/// Relies on cetkaik_fundamental's `FromStr` for `Color`, which lowercases
/// the token with `str::to_lowercase` and looks it up in its synonym table.
/// The enumerations are declared in the same order.
#[verifier::external_body]
fn color_position_of(s: &str) -> (r: Option<u8>)
    ensures
        r == color_position(color_synonym(lower_of(s@))),
{
    s.parse::<cetkaik_fundamental::Color>().ok().map(|c| c as u8)
}

/// Relies on cetkaik_fundamental's `FromStr` for `AbsoluteSide`, which
/// accepts exactly `A` and `IA`. The enumerations are declared in the same
/// order.
#[verifier::external_body]
fn side_position_of(s: &str) -> (r: Option<u8>)
    ensures
        r == side_position(side_synonym(s@)),
{
    s.parse::<cetkaik_fundamental::AbsoluteSide>().ok().map(|s| s as u8)
}

impl Profession {
    fn from_index(i: u8) -> (r: Option<Profession>)
        ensures
            r.is_some() ==> profession_index(r.unwrap()) == i,
            i < 10 ==> r.is_some(),
    {
        match i {
            0 => Some(Profession::Nuak1),
            1 => Some(Profession::Kauk2),
            2 => Some(Profession::Gua2),
            3 => Some(Profession::Kaun1),
            4 => Some(Profession::Dau2),
            5 => Some(Profession::Maun1),
            6 => Some(Profession::Kua2),
            7 => Some(Profession::Tuk2),
            8 => Some(Profession::Uai1),
            9 => Some(Profession::Io),
            _ => None,
        }
    }
}

impl Color {
    fn from_index(i: u8) -> (r: Option<Color>)
        ensures
            r.is_some() ==> color_index(r.unwrap()) == i,
            i < 2 ==> r.is_some(),
    {
        match i {
            0 => Some(Color::Kok1),
            1 => Some(Color::Huok2),
            _ => None,
        }
    }
}

impl Side {
    fn from_index(i: u8) -> (r: Option<Side>)
        ensures
            r.is_some() ==> side_index(r.unwrap()) == i,
            i < 2 ==> r.is_some(),
    {
        match i {
            0 => Some(Side::ASide),
            1 => Some(Side::IASide),
            _ => None,
        }
    }
}

/// The descriptor a token is read as: first as a profession, then as a
/// color, then as a side.
pub open spec fn descriptor_of(t: Seq<char>) -> Option<Descriptor> {
    match profession_synonym(lower_of(t)) {
        Some(p) => Some(Descriptor::Profession(p)),
        None => match color_synonym(lower_of(t)) {
            Some(c) => Some(Descriptor::Color(c)),
            None => match side_synonym(t) {
                Some(s) => Some(Descriptor::Side(s)),
                None => None,
            },
        },
    }
}

/// Whether a token is in one of the synonym tables.
pub open spec fn in_synonym_tables(t: Seq<char>) -> bool {
    profession_synonym(lower_of(t)).is_some() || color_synonym(lower_of(t)).is_some()
        || side_synonym(t).is_some()
}

/// Reads a token as a descriptor; `None` if no table holds it.
pub fn parse_descriptor(s: &str) -> (r: Option<Descriptor>)
    ensures
        r == descriptor_of(s@),
{
    if let Some(i) = profession_position_of(s) {
        if let Some(p) = Profession::from_index(i) {
            return Some(Descriptor::Profession(p));
        }
    }
    if let Some(i) = color_position_of(s) {
        if let Some(c) = Color::from_index(i) {
            return Some(Descriptor::Color(c));
        }
    }
    if let Some(i) = side_position_of(s) {
        if let Some(d) = Side::from_index(i) {
            return Some(Descriptor::Side(d));
        }
    }
    None
}

/// A token outside every synonym table is unrecognized, and a recognized
/// token is always in one of the tables: the reading never invents a match.
pub proof fn lemma_unrecognized(t: Seq<char>)
    ensures
        descriptor_of(t).is_none() <==> !in_synonym_tables(t),
{
}

} // verus!

//! The closed enumerations that identify a piece: side, color and profession.

use vstd::prelude::*;

verus! {

/// The two players, named after the rows their pieces start on.
#[derive(Clone, Copy, Debug, PartialEq, Eq, Structural)]
pub enum Side {
    ASide,
    IASide,
}

/// The two piece colors: red (kok1) and black (huok2).
#[derive(Clone, Copy, Debug, PartialEq, Eq, Structural)]
pub enum Color {
    Kok1,
    Huok2,
}

/// The ten non-tam professions.
#[derive(Clone, Copy, Debug, PartialEq, Eq, Structural)]
pub enum Profession {
    Nuak1,
    Kauk2,
    Gua2,
    Kaun1,
    Dau2,
    Maun1,
    Kua2,
    Tuk2,
    Uai1,
    Io,
}

/// A piece held in a reserve (hop1zuo1): its color and profession.
#[derive(Clone, Copy, Debug, PartialEq, Eq, Structural)]
pub struct Piece {
    pub color: Color,
    pub prof: Profession,
}

} // verus!

verus! {

/// One axis of a piece's identity, compared value by value.
pub trait Facet: Copy + Sized {
    fn same(&self, other: &Self) -> (r: bool)
        ensures
            r == (*self == *other),
    ;
}

impl Facet for Side {
    fn same(&self, other: &Self) -> (r: bool) {
        *self == *other
    }
}

impl Facet for Color {
    fn same(&self, other: &Self) -> (r: bool) {
        *self == *other
    }
}

impl Facet for Profession {
    fn same(&self, other: &Self) -> (r: bool) {
        *self == *other
    }
}

} // verus!

verus! {

impl Facet for Piece {
    fn same(&self, other: &Self) -> (r: bool) {
        self.color.same(&other.color) && self.prof.same(&other.prof)
    }
}

} // verus!

verus! {

/// The name of a side, as printed in messages.
pub open spec fn side_name(s: Side) -> Seq<char> {
    match s {
        Side::ASide => "ASide"@,
        Side::IASide => "IASide"@,
    }
}

/// The name of a color.
pub open spec fn color_name(c: Color) -> Seq<char> {
    match c {
        Color::Kok1 => "Kok1"@,
        Color::Huok2 => "Huok2"@,
    }
}

/// The name of a profession.
pub open spec fn profession_name(p: Profession) -> Seq<char> {
    match p {
        Profession::Nuak1 => "Nuak1"@,
        Profession::Kauk2 => "Kauk2"@,
        Profession::Gua2 => "Gua2"@,
        Profession::Kaun1 => "Kaun1"@,
        Profession::Dau2 => "Dau2"@,
        Profession::Maun1 => "Maun1"@,
        Profession::Kua2 => "Kua2"@,
        Profession::Tuk2 => "Tuk2"@,
        Profession::Uai1 => "Uai1"@,
        Profession::Io => "Io"@,
    }
}

impl Side {
    /// The side's name.
    pub fn name(&self) -> (r: &'static str)
        ensures
            r@ == side_name(*self),
    {
        match self {
            Side::ASide => "ASide",
            Side::IASide => "IASide",
        }
    }
}

impl Color {
    /// The color's name.
    pub fn name(&self) -> (r: &'static str)
        ensures
            r@ == color_name(*self),
    {
        match self {
            Color::Kok1 => "Kok1",
            Color::Huok2 => "Huok2",
        }
    }
}

impl Profession {
    /// The profession's name.
    pub fn name(&self) -> (r: &'static str)
        ensures
            r@ == profession_name(*self),
    {
        match self {
            Profession::Nuak1 => "Nuak1",
            Profession::Kauk2 => "Kauk2",
            Profession::Gua2 => "Gua2",
            Profession::Kaun1 => "Kaun1",
            Profession::Dau2 => "Dau2",
            Profession::Maun1 => "Maun1",
            Profession::Kua2 => "Kua2",
            Profession::Tuk2 => "Tuk2",
            Profession::Uai1 => "Uai1",
            Profession::Io => "Io",
        }
    }
}

} // verus!

//! Consistency levels and their protocol code points.
use vstd::prelude::*;

verus! {

/// How many replicas must answer a read or acknowledge a write.
#[derive(Clone, Copy, PartialEq, Eq, Structural, Debug)]
pub enum Consistency {
    Any,
    One,
    Two,
    Three,
    Quorum,
    All,
    LocalQuorum,
    EachQuorum,
    Serial,
    LocalSerial,
    LocalOne,
}

/// The code point of a consistency level.
pub open spec fn consistency_code(c: Consistency) -> u16 {
    match c {
        Consistency::Any => 0,
        Consistency::One => 1,
        Consistency::Two => 2,
        Consistency::Three => 3,
        Consistency::Quorum => 4,
        Consistency::All => 5,
        Consistency::LocalQuorum => 6,
        Consistency::EachQuorum => 7,
        Consistency::Serial => 8,
        Consistency::LocalSerial => 9,
        Consistency::LocalOne => 10,
    }
}

impl Consistency {
    /// The code point that stands on the wire.
    pub fn code(&self) -> (r: u16)
        ensures
            r == consistency_code(*self),
    {
        match self {
            Consistency::Any => 0,
            Consistency::One => 1,
            Consistency::Two => 2,
            Consistency::Three => 3,
            Consistency::Quorum => 4,
            Consistency::All => 5,
            Consistency::LocalQuorum => 6,
            Consistency::EachQuorum => 7,
            Consistency::Serial => 8,
            Consistency::LocalSerial => 9,
            Consistency::LocalOne => 10,
        }
    }

    /// The level with the given code point, if there is one.
    pub fn from_code(v: u16) -> (r: Option<Consistency>)
        ensures
            r is Some <==> v <= 10,
            r is Some ==> consistency_code(r->0) == v,
    {
        match v {
            0 => Some(Consistency::Any),
            1 => Some(Consistency::One),
            2 => Some(Consistency::Two),
            3 => Some(Consistency::Three),
            4 => Some(Consistency::Quorum),
            5 => Some(Consistency::All),
            6 => Some(Consistency::LocalQuorum),
            7 => Some(Consistency::EachQuorum),
            8 => Some(Consistency::Serial),
            9 => Some(Consistency::LocalSerial),
            10 => Some(Consistency::LocalOne),
            _ => None,
        }
    }
}

} // verus!

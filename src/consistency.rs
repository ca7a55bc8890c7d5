use vstd::prelude::*;

verus! {

/// Consistency level of a request, sent to the server as a two-byte code.
#[derive(Clone, Copy, Debug, PartialEq, Eq, Structural)]
pub enum Consistency {
    Any,
    One,
    Two,
    Three,
    Quorum,
    All,
    LocalQuorum,
    EachQuorum,
    Serial,
    LocalSerial,
    LocalOne,
}

/// The wire code of a consistency level.
pub open spec fn consistency_code(c: Consistency) -> u16 {
    match c {
        Consistency::Any => 0x0000,
        Consistency::One => 0x0001,
        Consistency::Two => 0x0002,
        Consistency::Three => 0x0003,
        Consistency::Quorum => 0x0004,
        Consistency::All => 0x0005,
        Consistency::LocalQuorum => 0x0006,
        Consistency::EachQuorum => 0x0007,
        Consistency::Serial => 0x0008,
        Consistency::LocalSerial => 0x0009,
        Consistency::LocalOne => 0x000A,
    }
}

impl Consistency {
    /// The two-byte code this level has on the wire.
    pub fn code(&self) -> (r: u16)
        ensures
            r == consistency_code(*self),
    {
        match self {
            Consistency::Any => 0x0000,
            Consistency::One => 0x0001,
            Consistency::Two => 0x0002,
            Consistency::Three => 0x0003,
            Consistency::Quorum => 0x0004,
            Consistency::All => 0x0005,
            Consistency::LocalQuorum => 0x0006,
            Consistency::EachQuorum => 0x0007,
            Consistency::Serial => 0x0008,
            Consistency::LocalSerial => 0x0009,
            Consistency::LocalOne => 0x000A,
        }
    }
}

} // verus!

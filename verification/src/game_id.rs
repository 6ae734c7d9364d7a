use vstd::prelude::*;

verus! {

/// The game a plugin file belongs to.
///
/// The subrecord parser distinguishes only `Morrowind`, whose subrecords carry
/// a 32-bit length field; every later game shares the 16-bit wire format.
#[derive(Clone, Copy, Debug, PartialEq, Eq, Structural)]
pub enum GameId {
    Morrowind,
    Oblivion,
    Skyrim,
    Fallout3,
    FalloutNV,
    Fallout4,
}

} // verus!

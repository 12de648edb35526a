//! The catalog of a project: its chips, their firmware builds and the parts
//! of each build.

use crate::version::Version;
use vstd::prelude::*;

verus! {

/// The format of one part of a firmware build.
#[derive(Clone, Copy, Debug, PartialEq, Eq, Structural)]
pub enum PartKind {
    Elf,
    Bin,
    Hex,
}

/// One payload of a firmware build.
#[derive(Clone, Copy, Debug)]
pub struct BinaryPart {
    pub id: u128,
    pub kind: PartKind,
    /// Where a raw binary is loaded; read for `Bin` parts only.
    pub memory_offset: Option<i32>,
    /// Size of the part in non-volatile memory, where it was analysed.
    pub nvm_size: Option<i32>,
}

/// One versioned firmware build, with its parts in catalog order.
#[derive(Debug)]
pub struct Binary {
    pub id: u128,
    pub version: Version,
    pub parts: Vec<BinaryPart>,
}

/// A hardware target of the project.
#[derive(Debug)]
pub struct Chip {
    pub id: u128,
    pub name: String,
    /// The identifier by which a debug session is opened.
    pub part_number: String,
    pub binaries: Vec<Binary>,
}

/// The names of the chips, in catalog order.
pub open spec fn chip_names(chips: Seq<Chip>) -> Seq<Seq<char>> {
    Seq::new(chips.len(), |i: int| chips[i].name@)
}

/// No two chips share a name.
pub open spec fn names_unique(chips: Seq<Chip>) -> bool {
    forall|i: int, j: int|
        0 <= i < j < chips.len() ==> #[trigger] chips[i].name@ != #[trigger] chips[j].name@
}

} // verus!

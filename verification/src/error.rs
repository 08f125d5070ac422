//! The reasons for which a placement is given up.

use crate::item::FillerItem;
use vstd::prelude::*;

verus! {

/// A reason for which a placement is given up.
#[derive(Debug, PartialEq, Eq)]
pub enum FillError {
    /// Two checks of the world have the same name.
    DuplicateCheck(String),
    /// With every item in hand, only some of the checks can be taken.
    Unreachable { reachable: usize, total: usize },
    /// The settings leave out a check that the world does not have.
    UnknownExclusion(String),
    /// A check was to be given filler when none was left.
    OutOfTrash,
    /// More checks were to be given a maiamai than there are maiamai.
    OutOfMaiamai,
    /// No check was free to take an item that the settings place ahead.
    NoPlace(FillerItem),
    /// The checks left empty and the filler left over differ in number.
    TrashMismatch { empty: usize, trash: usize },
    /// A check that is to be patched holds nothing.
    Unbound(String),
    /// The game knows no item for a placement tag.
    Unmappable(FillerItem),
}

} // verus!

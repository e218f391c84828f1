//! Why an operation was refused.

use vstd::prelude::*;

verus! {

/// The ways an operation can fail. A failed operation changes nothing.
#[derive(Clone, Debug, PartialEq, Eq)]
pub enum ContractError {
    /// The underlying store failed; its message is passed on as it came.
    Std(String),
    /// The caller is not the administrator.
    Unauthorized,
    /// A new end height does not lie after the current height.
    InvalidEndHeight,
    /// A pixel or chunk coordinate lies outside the canvas.
    InvalidCoordinates,
    /// A color code outside the palette.
    InvalidColor,
    /// The caller may not draw again yet.
    StillOnCooldown,
    /// The canvas has passed its end height.
    EndHeightReached,
}

} // verus!

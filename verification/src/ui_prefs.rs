//! Preferences of the interface, and what follows from them.

use vstd::prelude::*;

verus! {

/// How the corners of a bordered box are drawn.
#[derive(Clone, Copy, Debug, PartialEq, Eq, Structural)]
pub enum BorderKind {
    Plain,
    Rounded,
}

/// Returns the border of a box: rounded where rounded corners are turned on,
/// and plain otherwise.
pub fn box_border_type(rounded_corners: bool) -> (kind: BorderKind)
    ensures
        kind == if rounded_corners {
            BorderKind::Rounded
        } else {
            BorderKind::Plain
        },
{
    if rounded_corners {
        BorderKind::Rounded
    } else {
        BorderKind::Plain
    }
}

} // verus!

//! Turret classification shared with the host.

use vstd::prelude::*;

verus! {

/// Which gun or guns fire at a given aim, relative to the ship's facing.
#[derive(Debug, Clone, Copy, PartialEq, Eq, Structural)]
pub enum FireSector {
    Left,
    Right,
    Both,
}

} // verus!

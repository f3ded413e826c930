//! The dimensions a world can generate.

use vstd::prelude::*;

verus! {

/// A dimension of the world; each has its own immutable generation settings.
#[derive(Clone, Copy, PartialEq, Eq, Structural, Debug, Hash)]
pub enum Dimension {
    Overworld,
    Nether,
    End,
}

} // verus!

//! The most common items, gathered for one import.

pub use crate::command::Function;
pub use crate::coord::{Coordinate, Coordinates};
pub use crate::datapack::{Artifact, Datapack};
pub use crate::decimal::Decimal;
pub use crate::ident::Identifier;
pub use crate::minecraft::{Block, Entity, Item};
pub use crate::selector::{at_a, at_e, at_p, at_r, at_s, Selector};

use vstd::prelude::*;

verus! {

/// Stable shorthand for `Default::default`, useful with the many datapack
/// configuration records whose fields are all optional.
pub fn default<T: Default>() -> T {
    T::default()
}

} // verus!

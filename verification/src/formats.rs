//! The closed set of container formats the adapter can produce or parse.

use vstd::prelude::*;

verus! {

/// Selects the encoded container format. The declaration order is part of the
/// external contract: callers may depend on `TGA` being the first ordinal and
/// `PNG` the second.
#[derive(Clone, Copy, Debug, PartialEq, Eq, Structural)]
pub enum LibImageFormat {
    TGA,
    PNG,
}

impl LibImageFormat {
    /// Distinguishes the two formats at the specification level.
    pub open spec fn is_png(&self) -> bool {
        *self is PNG
    }
}

} // verus!

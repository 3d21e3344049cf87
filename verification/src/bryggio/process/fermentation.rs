//! The fermentation stage of a normalized recipe.
use vstd::prelude::*;

verus! {

/// The fermentation stage; it carries no data yet.
#[derive(Debug, PartialEq, Eq, Structural, Clone, Copy)]
pub struct Fermentation {

}

} // verus!

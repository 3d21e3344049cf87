//! The carbonation stage of a normalized recipe.
use vstd::prelude::*;

verus! {

/// The carbonation stage; it carries no data yet.
#[derive(Debug, PartialEq, Eq, Structural, Clone, Copy)]
pub struct Carbonation {

}

} // verus!

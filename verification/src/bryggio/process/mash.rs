//! The mash stage of a normalized recipe.
use vstd::prelude::*;

verus! {

/// The mash stage; it carries no data yet.
#[derive(Debug, PartialEq, Eq, Structural, Clone, Copy)]
pub struct Mash {

}

} // verus!

//! Explicit process stages of a normalized recipe.
pub mod boil;
pub mod carbonation;
pub mod fermentation;
pub mod mash;

pub use boil::Boil;
pub use carbonation::Carbonation;
pub use fermentation::Fermentation;
pub use mash::Mash;

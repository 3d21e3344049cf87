//! Records of the BeerXML interchange format, as decoded documents hand them
//! to this crate, with every quantity in fixed-point thousandths (see
//! [`crate::units`]).
pub mod equipment;
pub mod fermentable;
pub mod hop;
pub mod mash;
pub mod misc;
pub mod recipe;
pub mod style;
pub mod water;
pub mod yeast;

pub use hop::Hop;
pub use recipe::IbuMethod;
pub use recipe::Recipe;

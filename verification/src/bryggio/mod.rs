//! The crate's own normalized recipe representation and the calculations
//! over it, as opposed to the raw decoded records of [`crate::beerxml`].
pub mod process;
pub mod recipe;
pub mod state_machine;

pub use recipe::Recipe;

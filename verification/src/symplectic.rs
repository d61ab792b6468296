pub mod integration;
pub mod traits;

mod neri;
mod suzuki;

pub use traits::State;

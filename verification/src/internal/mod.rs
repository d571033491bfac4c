//! What the models rest on: the collections that hold them, and text.

pub mod first;
pub mod fixed;
pub mod prelude;
pub mod sort;
pub mod store;
pub mod text;

//! The names that the models use all over: the string and the map that hold
//! their data.

pub use crate::internal::fixed::FixedString;
pub use extract_map::ExtractKey;
pub use extract_map::ExtractMap;

//! The on-disk project format: errors, the JSON codec's checks, and
//! content-addressed asset storage.
pub mod error;
pub mod load;
pub mod value;
pub mod assets;
pub mod json;

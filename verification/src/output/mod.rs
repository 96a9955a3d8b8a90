//! The output window: which display the show goes to, and the operator's
//! settings for it.
pub mod config;
pub mod monitor;

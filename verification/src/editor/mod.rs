//! The editor's rules: modes and stages, tools, gestures, hit-testing
//! geometry, and the decisions its systems take each frame.
pub mod state;
pub mod chrome;
pub mod dock;
pub mod hit;
pub mod icons;
pub mod drag;
pub mod mode;
pub mod panels;
pub mod files;
pub mod fit;
pub mod gesture;
pub mod import;
pub mod inspect;
pub mod interact;
pub mod layers;
pub mod rig;
pub mod theme;

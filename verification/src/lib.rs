//! Animus Live: the verified core of the puppet editor and its project format.
pub mod editor;
pub mod ids;
pub mod output;
pub mod project;
pub mod text;

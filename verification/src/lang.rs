//! Texts of the user interface.

pub mod en;

//! The two updates that the launcher knows: that of the application that it
//! manages, and that of its own executable.

pub mod application;
pub mod selfexe;

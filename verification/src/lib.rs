//! Planning of a new package: its name, the source files it starts from, the
//! version control that governs it, and the files that have to be written.
//!
//! Nothing here touches the disk. The caller reports what it found, and gets
//! back either an error or the list of steps to carry out.

pub mod author;
pub mod effect;
pub mod manifest;
pub mod model;
pub mod name;
pub mod plan;
pub mod steps;
pub mod survey;
pub mod text;
pub mod vcs;

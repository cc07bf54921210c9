//! Decisions behind converting an installed PSN edition of the game into a
//! disc layout: which regional edition is installed, where each file of it
//! lands in the output tree, which entries are left out, and how the
//! decryption tool is invoked on each file.

pub mod paths;
pub mod plan;
pub mod region;
pub mod text;

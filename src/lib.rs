//! Decision logic for keeping local checkouts of remote repositories, and
//! submodules inside them, in the state a caller needs.
//!
//! Every operation is a short sequence of actions (a run of the revision
//! control tool, a directory to create, a file to read). The library decides
//! which action comes next and how to read its outcome; the caller performs
//! the action and hands the outcome back.

pub mod repo;
pub mod submodule;
pub mod tool;

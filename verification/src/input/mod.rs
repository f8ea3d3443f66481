//! Text insertion: how a changed transcript is turned into keystrokes.

pub mod inserter;

pub use inserter::{InsertResult, TextDiff};

//! Core of an interactive terminal assistant: the tool descriptors, the
//! command-output composer with its size bound, and the turn loop's
//! decisions, each stated over mathematical models and proved.

pub mod decimal;
pub mod descriptor;
pub mod document;
pub mod error;
pub mod history;
pub mod runner;
pub mod session;
pub mod text;
pub mod tools;
pub mod utf8;

//! The core of a command-line adapter to a graph store: it compiles the
//! fields of a command into a parameterized query, normalizes what the store
//! returns into canonical JSON, classifies every failure into a closed
//! taxonomy, and suggests what to run next.
//!
//! The library sends nothing anywhere. A caller makes a plan from the
//! arguments of a command, connects and runs the plan's query, and hands the
//! rows to the command's response function.

pub mod actions;
pub mod commands;
pub mod connection;
pub mod convert;
pub mod cypher;
pub mod document;
pub mod driver;
pub mod error;
pub mod json;
pub mod laws;
pub mod order;
pub mod shape;
pub mod surface;
pub mod text;

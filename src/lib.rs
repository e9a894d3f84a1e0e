//! Small, self-contained building blocks of everyday Rust, each with a
//! machine-checked contract: generic containers, integer division, text
//! assembly, collections, pattern-driven dispatch and calendar dates.
pub mod collections;
pub mod dates;
pub mod generics;
pub mod macros;
pub mod objects;
pub mod ownership;
pub mod patterns;
pub mod strings;
pub mod structs;
pub mod text;
pub mod types;
pub mod web;

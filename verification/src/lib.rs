//! Inspects an application's source tree, decides which language ecosystem it
//! belongs to, and compiles a declarative multi-phase build plan: ordered
//! phases with commands and dependency edges, required packages, environment
//! variables and a start command. The plan is pure data; rendering and
//! executing it belong to the caller.

pub mod app;
pub mod environment;
pub mod error;
pub mod nix;
pub mod plan;
pub mod providers;
pub mod registry;
pub mod scan;
pub mod strutil;

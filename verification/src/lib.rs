//! A Discord bot library that compiles and runs user code on demand.
//!
//! The library holds the bot's decisions: which files a run writes,
//! which compiler it calls, what it answers for every outcome, how the
//! slash commands look and which handler an interaction reaches. The
//! program around it performs the network and process work.

use vstd::prelude::*;

pub mod text;
pub mod executor;
pub mod compiler_interface;
pub mod model;
pub mod commands;
pub mod utils;
pub mod handler;

pub use handler::EventHandler;

verus! {

/// A handler that builds itself from the process environment.
pub trait HandlerFromEnv: Sized {
    fn from_env() -> Self;
}

} // verus!

//! The channel that carries the signal to start a run.

use vstd::prelude::*;

pub mod message;

verus! {

/// The name of the channel.
pub const CHANNEL: &'static str = "sync";

} // verus!

use vstd::prelude::*;

pub mod awake;
pub mod messages;
pub mod metrics;
pub mod opt;
pub mod perf;
pub mod position;
pub mod microphone;
pub mod refcount;
pub mod state;
pub mod stats;
pub mod string;
pub mod timers;
pub mod utils;
pub mod z_order;

verus! {

} // verus!

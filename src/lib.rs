//! Subscription ingestion: format detection, the Clash schema mapper and the
//! ruleset assembler.
use vstd::prelude::*;

pub mod clash;
pub mod reader;
pub mod settings;

verus! {

} // verus!

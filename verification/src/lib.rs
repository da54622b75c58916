//! A safe handle layer over a forensic filesystem-analysis engine, together
//! with the small pieces of agent glue that surround it.
//!
//! The engine itself is reached through a foreign function boundary that this
//! crate never crosses: every function that needs the engine takes the foreign
//! call as a function value, makes the call at the point the protocol asks for
//! it, and decides everything else itself. What a function hands to the call
//! and what it concludes from the answer is stated in its contract.

pub mod action;
pub mod message;
pub mod opts;
pub mod text;
pub mod tsk;

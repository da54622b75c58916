//! Addressing of messages that leave the agent.

pub mod sink;

//! Verified core of a Discord moderation bot: the decisions it takes on
//! commands, hooks and gateway events, the texts it sends, and the rows it
//! writes. Network, database and gateway work is done by the caller, which
//! feeds the outcome of each step back in.

pub mod config;
pub mod events;
pub mod hooks;
pub mod lookup;
pub mod mention;
pub mod moderation;
pub mod records;
pub mod stats;
pub mod text;

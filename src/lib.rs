//! Peer-connection and route-probe orchestration for a Lightning node operator's chat bot.
//!
//! The library decides; the caller performs. Each orchestrator is a small state
//! machine that hands back the next remote call to make and takes back what that
//! call returned, so every decision is checked here while the network work stays
//! with the caller.
pub mod address;
pub mod pubkey;
pub mod credentials;
pub mod outcome;
pub mod report;
pub mod connect;
pub mod probe;
pub mod info;

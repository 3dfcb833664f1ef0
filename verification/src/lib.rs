//! A peer-to-peer group chat with a lightweight matchmaking protocol and a
//! turn-based mini-game session on top of a publish/subscribe broadcast
//! substrate.
//!
//! The verified core covers the deterministic identity and topic derivation
//! scheme, the message envelope codec, the dispatch of incoming room
//! messages, the single-slot matchmaking queue, the session-topic handoff,
//! and the crafting/resource model of the mini-game. Network transport and
//! terminal rendering are outside collaborators, reached only through thin
//! trusted declarations.

pub mod bootstrap;
pub mod codec;
pub mod commands;
pub mod craft;
pub mod directory;
pub mod dispatch;
pub mod identity;
pub mod matchmaking;
pub mod session;
pub mod text;

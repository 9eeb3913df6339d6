//! Room ownership and access control for a community voice-channel bot.
//!
//! The heart of the library is the `create` workflow: a three-step saga that
//! provisions a voice channel on the chat platform, persists an ownership row
//! in a relational store, and grants a membership role — with compensating
//! channel deletion when a later step fails. The derived operations
//! (key grant/revoke, open/close, name reset) all resolve the caller's channel
//! through the ownership store and then edit channel permissions.
//!
//! Every operation is verified against an explicit model of the two external
//! systems (the chat platform and the store); the pure decision machine in
//! `saga` can also be driven by an unverified host against the real platform.

pub mod errors;
pub mod helpers;
pub mod name;
pub mod perms;
pub mod platform;
pub mod saga;
pub mod store;
pub mod types;
pub mod workflow;

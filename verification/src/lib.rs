//! A policy-decision engine for structured tool-use events.
//!
//! Declarative rules, loaded from a user-authored configuration, are
//! evaluated against one event at a time.  Each matched rule contributes a
//! response (block, inject context, or allow), the responses are folded into
//! one final decision under explicit mode and priority precedence, and every
//! processed event leaves a structured record for the append-only audit log.

pub mod audit;
pub mod config;
pub mod events;
pub mod executor;
pub mod hooks;
pub mod matcher;
pub mod modes;
pub mod pattern;
pub mod response;
pub mod rules;
pub mod sim;
pub mod text;

//! Discovery, validation, caching and dispatch of a terminal emulator's
//! remote-control endpoint from inside a terminal multiplexer session.
//!
//! The crate models the engine as pure, verified logic: parsers for the
//! process-metadata and multiplexer listings, a bounded cycle-safe ancestor
//! walk, a TTL-bounded endpoint cache, an ordered discovery strategy machine,
//! and a dispatch machine with a single re-discovery retry and transport
//! fallback.  All operating-system interaction (process spawns, file reads)
//! is performed by the embedding program, which feeds raw bytes and verdicts
//! into these machines as events.

pub mod cache;
pub mod discovery;
pub mod dispatch;
pub mod geometry;
pub mod introspect;
pub mod resolver;
pub mod text;
pub mod tmux;
pub mod transport;
pub mod walker;

//! Core of a two-player networked chess-like board game: the 8x8 board model,
//! per-piece move validation with side effects (captures, en-passant,
//! castling), a deterministic move executor, the wire codec for the small
//! application-message set, the host/client handshake state machines, and the
//! turn-taking game orchestrator.

pub mod board;
pub mod codec;
pub mod game;
pub mod protocol;
pub mod rules;

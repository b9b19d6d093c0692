//! Verified core of a browser dashboard and admin console for the `tetron`
//! mesh VPN daemon: invite-code decoding, the mapping between browser
//! requests, daemon requests and daemon replies, add-on registry rules,
//! message-board discovery, and the small text routines they share.
//!
//! Talking to the daemon socket, running processes, reading and writing
//! files and serving HTTP is left to the `app/` crate: this library decides
//! what to do and what each outcome means, that crate carries it out. The
//! library's own outside calls (base58 and blake3 for invites, ed25519 key
//! validation, reading a board's JSON health answer, the home directory, a
//! file's existence, UTF-8 decoding) are
//! declared with the contracts they are trusted to meet.

pub mod addons;
pub mod api;
pub mod board_discovery;
pub mod command;
pub mod invite;
pub mod ipc;
pub mod messageboard;
pub mod server;
pub mod service;
pub mod sync_receiver;
pub mod text;

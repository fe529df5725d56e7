//! Decision logic of the inference provider operator.
//!
//! The operator keeps the status of inference providers up to date. This
//! library decides what it asks, what the answers mean, what it writes and when
//! it comes back; asking and writing are left to the caller.
//!
//! - Reconciliation: [`phase`], [`sites`], [`probe`], [`resolve`], [`status`].
//! - Model discovery: [`discovery`], [`poll`], [`poller`].
//! - Data: [`resource`], [`name_map`], [`ordering`], [`text`], [`duration`].
//! - Outside calls: [`uri`], [`clock`], and the string functions in [`text`].

pub mod clock;
pub mod discovery;
pub mod duration;
pub mod name_map;
pub mod ordering;
pub mod phase;
pub mod poll;
pub mod poller;
pub mod probe;
pub mod resolve;
pub mod resource;
pub mod sites;
pub mod status;
pub mod text;
pub mod uri;

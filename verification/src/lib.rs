//! A memory-safe bridge between a version-control engine's content-filter
//! pipeline and host-language filter implementations, together with a
//! credential-exchange helper for the engine's large-file-storage extension.
//!
//! The engine drives a registered filter through a fixed protocol: an
//! admission test per file, then either a whole-buffer transform or a
//! streaming transform through a chain of write sinks, then a cleanup of the
//! per-invocation payload. This crate models that protocol over plain values
//! and proves the bridge's obligations: attribute lists are cut at their
//! first empty entry, a provisional stream is reported with the engine's
//! distinguished status, the registry holds one filter per name, and cleanup
//! runs exactly once per admitted invocation.

pub mod driver;
pub mod filter;
pub mod lfs;
pub mod registry;
pub mod source;
pub mod status;
pub mod stream;

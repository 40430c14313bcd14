//! Media-session monitoring core: the normalised track snapshot, the
//! identifier cleanup rules, artwork locator handling, the per-tick monitor
//! decision and the colour preset catalogue.

pub mod snapshot;
pub mod text;
pub mod identifiers;
pub mod artwork;
pub mod monitor;
pub mod adapters;
pub mod colors;

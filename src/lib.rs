//! Turns a media server's watch history into records for a tracking service.
pub mod export;
pub mod jellyfin;
pub mod laws;
pub mod ryot;

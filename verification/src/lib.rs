//! Verified core of the HexForge companion: API mode detection, Riot API
//! request planning, overlay hit testing, process-watcher decisions and the
//! small text conversions they rely on.

pub mod api;
pub mod commands;
pub mod overlay;
pub mod process_watcher;
pub mod startup;
pub mod text;

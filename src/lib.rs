//! Discovery of attached game controllers: classification of raw device
//! records into controller families, per-family deduplication, and the
//! battery/status fallback chain that gives each controller its charge.

pub mod battery;
pub mod controller;
pub mod dedup;
pub mod discovery;
pub mod family;
pub mod power_info;
pub mod power_path;
pub mod record;
pub mod report;
pub mod text;
pub mod xbox;

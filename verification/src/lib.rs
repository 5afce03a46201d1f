//! Lifecycle tracking for timed game-world entities.
//!
//! Records persisted by external game plugins carry reference timestamps
//! (planted at, last serviced at, voyage return). Given "now", each record is
//! classified into a discrete lifecycle [`status::Status`]; records sharing a
//! group key are reduced to one worst-case status plus the next relevant
//! deadline; the result is rendered as a countdown string and a color tag.
//!
//! All timestamps are UTC instants in whole seconds since the Unix epoch, and
//! all durations are whole seconds; sampling the clock, file and database
//! access, and terminal output belong to the callers.

pub mod aggregate;
pub mod catalog;
pub mod classify;
pub mod fleet;
pub mod inventory;
pub mod laws;
pub mod render;
pub mod status;

pub use aggregate::AggregatedGroup;
pub use aggregate::aggregate;
pub use catalog::TimingProfile;
pub use catalog::crop_name;
pub use classify::CropRecord;
pub use classify::crop_status;
pub use classify::single_deadline_status;
pub use classify::voyage_status;
pub use fleet::FreeCompany;
pub use fleet::Submarine;
pub use fleet::SubmarineRow;
pub use fleet::group_fleet;
pub use inventory::SavedCharacter;
pub use inventory::find_character;
pub use render::render;
pub use catalog::profile_for;
pub use catalog::server_name;
pub use catalog::worldname;
pub use status::ColorTag;
pub use status::Status;

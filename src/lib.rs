//! A registry of blood donation units: each unit is registered once, may have
//! its storage temperature reported until it reaches a terminal state, and may
//! be handed over to a recipient unless it was spoiled. Aggregate statistics
//! are kept alongside the records and always add up.

pub mod laws;
pub mod record;
pub mod registry;
pub mod stats;

pub use record::{BloodDonation, DonationError, DonationStatus};
pub use registry::{BloodDonationContract, DonationBook};
pub use stats::DonationStats;

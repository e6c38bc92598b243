//! An append-only feed of opaque event payloads with one authorized writer
//! and time-based expiry of old records.
use vstd::prelude::*;

pub mod pallet;
pub mod record;
pub mod traits;

pub use pallet::{Config, Error, Event, Pallet};
pub use record::{EventEntry, EventInfo};
pub use traits::{AccountId, EligibilityError, IsAuthorizedAccount};

verus! {

} // verus!

//! Verified core of the Andromeda lockdrop and virtual-file-system contracts:
//! the time windows, withdrawal limits, deposit / withdrawal / claim
//! bookkeeping and the migration guard, as pure functions from the stored
//! records and the request to the new records and the reply.

pub mod math;
pub mod error;
pub mod version;
pub mod lockdrop;
pub mod lockdrop_laws;
pub mod vfs;
pub mod lockdrop_run;
pub mod lockdrop_outcomes;

//! A multi-party commit protocol: a fixed set of founders pledge funds and
//! vote on a shared venture (a tribe), which activates once every founder's
//! obligation is resolved and becomes defunct when a required founder withdraws.
pub mod account;
pub mod errors;
pub mod founder;
pub mod laws;
pub mod text;
pub mod tribe;

pub use account::AccountId;
pub use errors::{MyDisplay, TribeError};
pub use founder::{Founder, Vote};
pub use tribe::{TribeContract, TribeStatus};

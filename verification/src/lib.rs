//! Anonymous confessions: authorship bookkeeping and command resolution.
//!
//! The crate keeps, for every published confession, who wrote it and where it
//! stands in its community's numbering, and decides from those records what an
//! inbound command may do. It never talks to the platform: callers publish,
//! delete and reply, and hand the outcomes back.

pub mod announcement;
pub mod authorship;
pub mod commands;
pub mod decimal;
pub mod handler;
pub mod interaction;
pub mod ledger;
pub mod reference;
pub mod retraction;
pub mod schema;
pub mod sequence;

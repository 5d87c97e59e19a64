//! A fixed-size roster of employee records: built in one batch, read by
//! shared reference, and released by a single consuming pass.
pub mod decimal;
pub mod roster;

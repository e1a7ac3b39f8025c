//! Rules on the natspec comments of events.
pub mod too_many_notice;

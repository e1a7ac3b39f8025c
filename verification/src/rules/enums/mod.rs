//! Rules on the natspec comments of enums.
pub mod missing_title;
pub mod missing_variant;
pub mod too_many_title;

//! Rules on the natspec comments of state variables.
pub mod missing_inheritdoc;
pub mod missing_notice;
pub mod no_author;
pub mod no_title;
pub mod too_many_inheritdoc;
pub mod too_many_notice;

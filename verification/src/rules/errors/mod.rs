//! Rules on the natspec comments of errors.
pub mod missing_notice;
pub mod missing_param;
pub mod no_author;
pub mod no_return;
pub mod no_title;

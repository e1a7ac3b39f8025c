//! Rules on the natspec comments of contracts, interfaces and libraries.
pub mod missing_title;
pub mod no_inheritdoc;
pub mod no_param;
pub mod too_many_notice;
pub mod too_many_title;

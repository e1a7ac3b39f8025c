//! Rules on the natspec comments of functions, constructors, modifiers, fallback and receive functions.
pub mod missing_inheritdoc;
pub mod missing_notice;
pub mod missing_params;
pub mod missing_return;
pub mod only_inheritdoc;
pub mod too_many_notice;

//! Rules on the natspec comments of structs.
pub mod missing_params;
pub mod missing_title;

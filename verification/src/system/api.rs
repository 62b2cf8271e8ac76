//! The HTTP control surface: its unit, its errors and its handlers'
//! decisions.
pub mod api_actor;
pub mod errors;
pub mod handlers;

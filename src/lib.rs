//! Client library for the Clicksign electronic-signature REST API.
//!
//! The verified part builds authenticated request URLs, prepares request
//! bodies and maps the service's HTTP status codes to outcomes.
pub mod client;
pub mod error;
pub mod json;
pub mod models;

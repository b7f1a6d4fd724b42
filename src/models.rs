//! Request and response records of the remote API.
pub mod documents;
pub mod signers;

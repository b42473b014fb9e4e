//! Request and response shapes of the gateway's endpoints.

pub mod request;
pub mod response;

//! Request planning and the lifecycle of requests.

pub mod decision;
pub mod requests;
pub mod pipeline;

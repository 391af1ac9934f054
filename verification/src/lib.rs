//! Verified core of a client library for the Lettermint email service.
//!
//! The modules hold what the library decides and computes: the shape of the
//! requests it sends, how it classifies the API's answers, the verification
//! of signed webhook deliveries, and the addresses used for test sends.

pub mod json;
pub mod text;
pub mod webhook;
pub mod testing;
pub mod api;
mod client;
pub mod reqwest_client;

pub use client::{
    check_response, describes_failure, has_body, is_success, plan_request, reported_error_type,
    reported_errors, reported_message, request_headers, request_path, ErrorBody, Method,
    QueryError, RequestPlan, JSON_MEDIA_TYPE,
};
pub use reqwest_client::LETTERMINT_API_URL;

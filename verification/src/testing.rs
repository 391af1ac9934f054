//! Helpers for exercising the API without sending real mail.

pub mod emails;

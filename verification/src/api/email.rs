//! Sending email, one at a time or in batches.

mod batch;
mod send;

pub use batch::{BatchError, BatchSendRequest, MAX_BATCH_SIZE};
pub use send::{
    headers_view, idempotency_headers, idempotency_key_headers, opt_view, Attachment, EmailOptions,
    EmailStatus, SendEmailRequest, SendEmailRequestBuilder, SendEmailResponse, Unset,
    IDEMPOTENCY_HEADER,
};

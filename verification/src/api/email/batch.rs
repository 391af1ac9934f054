//! Sending several emails in one request.

use super::send::{headers_view, idempotency_headers, idempotency_key_headers, SendEmailRequest};
use vstd::prelude::*;

verus! {

/// The most emails one batch request may carry.
pub const MAX_BATCH_SIZE: usize = 500;

/// Why a batch cannot be built.
#[derive(Debug, Clone, PartialEq, Eq)]
pub enum BatchError {
    /// More emails than `MAX_BATCH_SIZE`.
    TooManyEmails { count: usize },
}

/// Send up to 500 emails in one request; the body is the list of emails.
#[derive(Debug, PartialEq)]
pub struct BatchSendRequest {
    emails: Vec<SendEmailRequest>,
    idempotency_key: Option<String>,
}

impl Clone for BatchSendRequest {
    fn clone(&self) -> (r: Self)
        ensures
            r.emails_spec().len() == self.emails_spec().len(),
            forall|i: int|
                0 <= i < self.emails_spec().len() ==> cloned::<SendEmailRequest>(
                    self.emails_spec()[i],
                    #[trigger] r.emails_spec()[i],
                ),
            r.idempotency_key_spec() == self.idempotency_key_spec(),
    {
        proof {
            use_type_invariant(self);
        }
        BatchSendRequest { emails: self.emails.clone(), idempotency_key: self.idempotency_key.clone() }
    }
}

impl BatchSendRequest {
    /// A batch never holds more than `MAX_BATCH_SIZE` emails.
    #[verifier::type_invariant]
    spec fn within_limit(self) -> bool {
        self.emails@.len() <= MAX_BATCH_SIZE
    }

    /// The emails of the batch.
    pub closed spec fn emails_spec(&self) -> Seq<SendEmailRequest> {
        self.emails@
    }

    /// The batch's idempotency key.
    pub closed spec fn idempotency_key_spec(&self) -> Option<String> {
        self.idempotency_key
    }

    /// A batch of `emails`, without idempotency key.
    ///
    /// Errors if there are more than 500 emails.
    pub fn new(emails: Vec<SendEmailRequest>) -> (r: Result<BatchSendRequest, BatchError>)
        ensures
            emails@.len() <= MAX_BATCH_SIZE ==> (r matches Ok(b) && b.emails_spec() == emails@
                && b.idempotency_key_spec() is None),
            emails@.len() > MAX_BATCH_SIZE ==> r == Err::<BatchSendRequest, BatchError>(
                BatchError::TooManyEmails { count: emails@.len() as usize },
            ),
    {
        let count = emails.len();
        if count > MAX_BATCH_SIZE {
            return Err(BatchError::TooManyEmails { count });
        }
        Ok(BatchSendRequest { emails, idempotency_key: None })
    }

    /// The same batch with an idempotency key, sent as a header.
    pub fn with_idempotency_key(self, key: &str) -> (r: BatchSendRequest)
        ensures
            r.emails_spec() == self.emails_spec(),
            r.idempotency_key_spec() matches Some(k) && k@ == key@,
    {
        proof {
            use_type_invariant(&self);
        }
        BatchSendRequest { emails: self.emails, idempotency_key: Some(String::from_str(key)) }
    }

    /// The emails of the batch, in order.
    pub fn emails(&self) -> (r: &Vec<SendEmailRequest>)
        ensures
            r@ == self.emails_spec(),
            r@.len() <= MAX_BATCH_SIZE,
    {
        proof {
            use_type_invariant(self);
        }
        &self.emails
    }

    /// The path of the endpoint.
    pub fn endpoint(&self) -> (r: &'static str)
        ensures
            r@ == "send/batch"@,
    {
        "send/batch"
    }

    /// The extra headers: the idempotency key, when there is one.
    pub fn extra_headers(&self) -> (r: Vec<(String, String)>)
        ensures
            headers_view(r@) == idempotency_headers(self.idempotency_key_spec()),
    {
        idempotency_key_headers(&self.idempotency_key)
    }
}

} // verus!

//! Sending a single email.

use std::collections::HashMap;
use vstd::prelude::*;

verus! {

/// An email attachment.
#[derive(Debug, Clone, PartialEq)]
pub struct Attachment {
    /// Filename.
    pub filename: String,
    /// Base64-encoded content.
    pub content: String,
    /// Content-ID for inline attachments (referenced via `cid:<content_id>` in HTML).
    pub content_id: Option<String>,
    /// Explicit MIME type of the content.
    pub content_type: Option<String>,
}

/// The view of an optional string.
pub open spec fn opt_view(s: Option<String>) -> Option<Seq<char>> {
    match s {
        Some(v) => Some(v@),
        None => None,
    }
}

impl Attachment {
    /// A regular attachment.
    pub fn new(filename: &str, content: &str) -> (r: Attachment)
        ensures
            r.filename@ == filename@,
            r.content@ == content@,
            r.content_id is None,
            r.content_type is None,
    {
        Attachment {
            filename: String::from_str(filename),
            content: String::from_str(content),
            content_id: None,
            content_type: None,
        }
    }

    /// An inline attachment, referenced from HTML as `cid:<content_id>`.
    pub fn inline(filename: &str, content: &str, content_id: &str) -> (r: Attachment)
        ensures
            r.filename@ == filename@,
            r.content@ == content@,
            opt_view(r.content_id) == Some(content_id@),
            r.content_type is None,
    {
        Attachment {
            filename: String::from_str(filename),
            content: String::from_str(content),
            content_id: Some(String::from_str(content_id)),
            content_type: None,
        }
    }
}

/// Send a single email via Lettermint.
///
/// Built with `SendEmailRequest::builder()`, which asks for `from`, `to` and
/// `subject` exactly once each before `build` is available.
#[derive(Debug, Clone, PartialEq)]
pub struct SendEmailRequest {
    /// Sender email address. RFC 5322 format supported: "Name <email>" or "email".
    pub from: String,
    /// One or more recipient email addresses.
    pub to: Vec<String>,
    /// Email subject line.
    pub subject: String,
    /// HTML body content.
    pub html: Option<String>,
    /// Plain text body content.
    pub text: Option<String>,
    /// CC recipients.
    pub cc: Option<Vec<String>>,
    /// BCC recipients.
    pub bcc: Option<Vec<String>>,
    /// Reply-To addresses.
    pub reply_to: Option<Vec<String>>,
    /// Custom email headers.
    pub headers: Option<HashMap<String, String>>,
    /// File attachments.
    pub attachments: Option<Vec<Attachment>>,
    /// Routing key / sending domain.
    pub route: Option<String>,
    /// Custom metadata key-value pairs.
    pub metadata: Option<HashMap<String, String>>,
    /// Categorization tag.
    pub tag: Option<String>,
    /// Idempotency key to prevent duplicate sends. Sent as a header, not in the body.
    pub idempotency_key: Option<String>,
}

/// The name of the header that carries an idempotency key.
pub const IDEMPOTENCY_HEADER: &'static str = "Idempotency-Key";

/// The extra headers for a request with optional idempotency key `key`:
/// one `Idempotency-Key` header when there is a key, none otherwise.
pub open spec fn idempotency_headers(key: Option<String>) -> Seq<(Seq<char>, Seq<char>)> {
    match key {
        Some(k) => seq![(IDEMPOTENCY_HEADER@, k@)],
        None => Seq::empty(),
    }
}

/// Headers as pairs of char sequences.
pub open spec fn headers_view(h: Seq<(String, String)>) -> Seq<(Seq<char>, Seq<char>)> {
    h.map_values(|p: (String, String)| (p.0@, p.1@))
}

/// The extra headers that carry an optional idempotency key.
pub fn idempotency_key_headers(key: &Option<String>) -> (r: Vec<(String, String)>)
    ensures
        headers_view(r@) == idempotency_headers(*key),
{
    let mut headers: Vec<(String, String)> = Vec::new();
    if let Some(k) = key {
        headers.push((String::from_str(IDEMPOTENCY_HEADER), k.clone()));
    }
    assert(headers_view(headers@) =~= idempotency_headers(*key));
    headers
}

impl SendEmailRequest {
    /// Start building a request.
    pub fn builder() -> (r: SendEmailRequestBuilder<Unset, Unset, Unset>)
        ensures
            r.options == EmailOptions::none(),
    {
        SendEmailRequestBuilder {
            from: Unset,
            to: Unset,
            subject: Unset,
            options: EmailOptions {
                html: None,
                text: None,
                cc: None,
                bcc: None,
                reply_to: None,
                headers: None,
                attachments: None,
                route: None,
                metadata: None,
                tag: None,
                idempotency_key: None,
            },
        }
    }

    /// The path of the endpoint.
    pub fn endpoint(&self) -> (r: &'static str)
        ensures
            r@ == "send"@,
    {
        "send"
    }

    /// The extra headers: the idempotency key, when there is one.
    pub fn extra_headers(&self) -> (r: Vec<(String, String)>)
        ensures
            headers_view(r@) == idempotency_headers(self.idempotency_key),
    {
        idempotency_key_headers(&self.idempotency_key)
    }
}

/// Marks a required builder field that has not been set yet.
#[derive(Debug, Clone, Copy)]
pub struct Unset;

/// The optional parts of an email.
#[derive(Debug, Clone, PartialEq)]
pub struct EmailOptions {
    pub html: Option<String>,
    pub text: Option<String>,
    pub cc: Option<Vec<String>>,
    pub bcc: Option<Vec<String>>,
    pub reply_to: Option<Vec<String>>,
    pub headers: Option<HashMap<String, String>>,
    pub attachments: Option<Vec<Attachment>>,
    pub route: Option<String>,
    pub metadata: Option<HashMap<String, String>>,
    pub tag: Option<String>,
    pub idempotency_key: Option<String>,
}

impl EmailOptions {
    /// No optional part set.
    pub open spec fn none() -> EmailOptions {
        EmailOptions {
            html: None,
            text: None,
            cc: None,
            bcc: None,
            reply_to: None,
            headers: None,
            attachments: None,
            route: None,
            metadata: None,
            tag: None,
            idempotency_key: None,
        }
    }
}

/// Builder for `SendEmailRequest`. The type parameters track the required
/// fields `from`, `to` and `subject`: `Unset` until set, after which the
/// setter is no longer available; `build` needs all three.
pub struct SendEmailRequestBuilder<F, T, S> {
    pub from: F,
    pub to: T,
    pub subject: S,
    pub options: EmailOptions,
}

impl<T, S> SendEmailRequestBuilder<Unset, T, S> {
    /// Sets the sender.
    pub fn from(self, from: &str) -> (r: SendEmailRequestBuilder<String, T, S>)
        ensures
            r.from@ == from@,
            r.to == self.to,
            r.subject == self.subject,
            r.options == self.options,
    {
        SendEmailRequestBuilder {
            from: String::from_str(from),
            to: self.to,
            subject: self.subject,
            options: self.options,
        }
    }
}

impl<F, S> SendEmailRequestBuilder<F, Unset, S> {
    /// Sets the recipients.
    pub fn to(self, to: Vec<String>) -> (r: SendEmailRequestBuilder<F, Vec<String>, S>)
        ensures
            r.from == self.from,
            r.to == to,
            r.subject == self.subject,
            r.options == self.options,
    {
        SendEmailRequestBuilder {
            from: self.from,
            to,
            subject: self.subject,
            options: self.options,
        }
    }
}

impl<F, T> SendEmailRequestBuilder<F, T, Unset> {
    /// Sets the subject line.
    pub fn subject(self, subject: &str) -> (r: SendEmailRequestBuilder<F, T, String>)
        ensures
            r.from == self.from,
            r.to == self.to,
            r.subject@ == subject@,
            r.options == self.options,
    {
        SendEmailRequestBuilder {
            from: self.from,
            to: self.to,
            subject: String::from_str(subject),
            options: self.options,
        }
    }
}

impl<F, T, S> SendEmailRequestBuilder<F, T, S> {
    /// The same builder with other options.
    pub open spec fn with_options(self, options: EmailOptions) -> Self {
        SendEmailRequestBuilder { from: self.from, to: self.to, subject: self.subject, options }
    }

    /// Sets the HTML body.
    pub fn html(self, html: &str) -> (r: Self)
        ensures
            opt_view(r.options.html) == Some(html@),
            r == self.with_options(EmailOptions { html: r.options.html, ..self.options }),
    {
        let mut b = self;
        b.options.html = Some(String::from_str(html));
        b
    }

    /// Sets the plain text body.
    pub fn text(self, text: &str) -> (r: Self)
        ensures
            opt_view(r.options.text) == Some(text@),
            r == self.with_options(EmailOptions { text: r.options.text, ..self.options }),
    {
        let mut b = self;
        b.options.text = Some(String::from_str(text));
        b
    }

    /// Sets the CC recipients.
    pub fn cc(self, cc: Vec<String>) -> (r: Self)
        ensures
            r == self.with_options(EmailOptions { cc: Some(cc), ..self.options }),
    {
        let mut b = self;
        b.options.cc = Some(cc);
        b
    }

    /// Sets the BCC recipients.
    pub fn bcc(self, bcc: Vec<String>) -> (r: Self)
        ensures
            r == self.with_options(EmailOptions { bcc: Some(bcc), ..self.options }),
    {
        let mut b = self;
        b.options.bcc = Some(bcc);
        b
    }

    /// Sets the Reply-To addresses.
    pub fn reply_to(self, reply_to: Vec<String>) -> (r: Self)
        ensures
            r == self.with_options(EmailOptions { reply_to: Some(reply_to), ..self.options }),
    {
        let mut b = self;
        b.options.reply_to = Some(reply_to);
        b
    }

    /// Sets custom email headers.
    pub fn headers(self, headers: HashMap<String, String>) -> (r: Self)
        ensures
            r == self.with_options(EmailOptions { headers: Some(headers), ..self.options }),
    {
        let mut b = self;
        b.options.headers = Some(headers);
        b
    }

    /// Sets the attachments.
    pub fn attachments(self, attachments: Vec<Attachment>) -> (r: Self)
        ensures
            r == self.with_options(EmailOptions { attachments: Some(attachments), ..self.options }),
    {
        let mut b = self;
        b.options.attachments = Some(attachments);
        b
    }

    /// Sets the routing key.
    pub fn route(self, route: &str) -> (r: Self)
        ensures
            opt_view(r.options.route) == Some(route@),
            r == self.with_options(EmailOptions { route: r.options.route, ..self.options }),
    {
        let mut b = self;
        b.options.route = Some(String::from_str(route));
        b
    }

    /// Sets custom metadata.
    pub fn metadata(self, metadata: HashMap<String, String>) -> (r: Self)
        ensures
            r == self.with_options(EmailOptions { metadata: Some(metadata), ..self.options }),
    {
        let mut b = self;
        b.options.metadata = Some(metadata);
        b
    }

    /// Sets the categorization tag.
    pub fn tag(self, tag: &str) -> (r: Self)
        ensures
            opt_view(r.options.tag) == Some(tag@),
            r == self.with_options(EmailOptions { tag: r.options.tag, ..self.options }),
    {
        let mut b = self;
        b.options.tag = Some(String::from_str(tag));
        b
    }

    /// Sets the idempotency key, sent as a header.
    pub fn idempotency_key(self, key: &str) -> (r: Self)
        ensures
            opt_view(r.options.idempotency_key) == Some(key@),
            r == self.with_options(
                EmailOptions { idempotency_key: r.options.idempotency_key, ..self.options },
            ),
    {
        let mut b = self;
        b.options.idempotency_key = Some(String::from_str(key));
        b
    }
}

impl SendEmailRequestBuilder<String, Vec<String>, String> {
    /// The request with the fields set so far.
    pub fn build(self) -> (r: SendEmailRequest)
        ensures
            r.from == self.from,
            r.to == self.to,
            r.subject == self.subject,
            r.html == self.options.html,
            r.text == self.options.text,
            r.cc == self.options.cc,
            r.bcc == self.options.bcc,
            r.reply_to == self.options.reply_to,
            r.headers == self.options.headers,
            r.attachments == self.options.attachments,
            r.route == self.options.route,
            r.metadata == self.options.metadata,
            r.tag == self.options.tag,
            r.idempotency_key == self.options.idempotency_key,
    {
        let o = self.options;
        SendEmailRequest {
            from: self.from,
            to: self.to,
            subject: self.subject,
            html: o.html,
            text: o.text,
            cc: o.cc,
            bcc: o.bcc,
            reply_to: o.reply_to,
            headers: o.headers,
            attachments: o.attachments,
            route: o.route,
            metadata: o.metadata,
            tag: o.tag,
            idempotency_key: o.idempotency_key,
        }
    }
}

/// Response from sending an email.
#[derive(Debug, Clone, PartialEq)]
pub struct SendEmailResponse {
    pub message_id: String,
    pub status: EmailStatus,
}

/// Status of an email.
#[derive(Debug, Clone, Copy, PartialEq, Eq)]
pub enum EmailStatus {
    Pending,
    Queued,
    Processed,
    Delivered,
    SoftBounced,
    HardBounced,
    Failed,
    Suppressed,
    Opened,
    Clicked,
    SpamComplaint,
    Blocked,
    PolicyRejected,
    Unsubscribed,
}

impl EmailStatus {
    /// The status's name on the wire, in snake case.
    pub open spec fn name(self) -> Seq<char> {
        match self {
            EmailStatus::Pending => "pending"@,
            EmailStatus::Queued => "queued"@,
            EmailStatus::Processed => "processed"@,
            EmailStatus::Delivered => "delivered"@,
            EmailStatus::SoftBounced => "soft_bounced"@,
            EmailStatus::HardBounced => "hard_bounced"@,
            EmailStatus::Failed => "failed"@,
            EmailStatus::Suppressed => "suppressed"@,
            EmailStatus::Opened => "opened"@,
            EmailStatus::Clicked => "clicked"@,
            EmailStatus::SpamComplaint => "spam_complaint"@,
            EmailStatus::Blocked => "blocked"@,
            EmailStatus::PolicyRejected => "policy_rejected"@,
            EmailStatus::Unsubscribed => "unsubscribed"@,
        }
    }

    /// The status's name, as its `Display` renders it.
    pub fn as_str(&self) -> (r: &'static str)
        ensures
            r@ == self.name(),
    {
        match self {
            EmailStatus::Pending => "pending",
            EmailStatus::Queued => "queued",
            EmailStatus::Processed => "processed",
            EmailStatus::Delivered => "delivered",
            EmailStatus::SoftBounced => "soft_bounced",
            EmailStatus::HardBounced => "hard_bounced",
            EmailStatus::Failed => "failed",
            EmailStatus::Suppressed => "suppressed",
            EmailStatus::Opened => "opened",
            EmailStatus::Clicked => "clicked",
            EmailStatus::SpamComplaint => "spam_complaint",
            EmailStatus::Blocked => "blocked",
            EmailStatus::PolicyRejected => "policy_rejected",
            EmailStatus::Unsubscribed => "unsubscribed",
        }
    }

    /// The status's name as an owned string.
    pub fn to_string(&self) -> (r: String)
        ensures
            r@ == self.name(),
    {
        String::from_str(self.as_str())
    }
}

/// The wire name of each status, in snake case, as `as_str` and
/// `to_string` give it.
pub proof fn lemma_status_names()
    ensures
        EmailStatus::Pending.name() == "pending"@,
        EmailStatus::Queued.name() == "queued"@,
        EmailStatus::Processed.name() == "processed"@,
        EmailStatus::Delivered.name() == "delivered"@,
        EmailStatus::SoftBounced.name() == "soft_bounced"@,
        EmailStatus::HardBounced.name() == "hard_bounced"@,
        EmailStatus::Failed.name() == "failed"@,
        EmailStatus::Suppressed.name() == "suppressed"@,
        EmailStatus::Opened.name() == "opened"@,
        EmailStatus::Clicked.name() == "clicked"@,
        EmailStatus::SpamComplaint.name() == "spam_complaint"@,
        EmailStatus::Blocked.name() == "blocked"@,
        EmailStatus::PolicyRejected.name() == "policy_rejected"@,
        EmailStatus::Unsubscribed.name() == "unsubscribed"@,
{
}

/// No two statuses share a name: a status name reported by `as_str` or
/// `to_string` tells the status it came from.
pub proof fn lemma_status_names_distinct(a: EmailStatus, b: EmailStatus)
    ensures
        a.name() == b.name() ==> a == b,
        a.name().len() > 0,
        forall|i: int|
            0 <= i < a.name().len() ==> ('a' <= #[trigger] a.name()[i] <= 'z' || a.name()[i] == '_'),
{
    reveal_strlit("pending");
    reveal_strlit("queued");
    reveal_strlit("processed");
    reveal_strlit("delivered");
    reveal_strlit("soft_bounced");
    reveal_strlit("hard_bounced");
    reveal_strlit("failed");
    reveal_strlit("suppressed");
    reveal_strlit("opened");
    reveal_strlit("clicked");
    reveal_strlit("spam_complaint");
    reveal_strlit("blocked");
    reveal_strlit("policy_rejected");
    reveal_strlit("unsubscribed");
    if a.name() == b.name() {
        assert(a.name().len() == b.name().len());
        assert(a.name()[0] == b.name()[0]);
    }
}

} // verus!

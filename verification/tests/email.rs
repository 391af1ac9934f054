use std::collections::HashMap;

use lettermint::api::email::{
    Attachment, BatchError, BatchSendRequest, EmailStatus, SendEmailRequest, MAX_BATCH_SIZE,
};

fn minimal_email() -> SendEmailRequest {
    SendEmailRequest::builder()
        .from("sender@example.com")
        .to(vec!["recipient@example.com".into()])
        .subject("Test")
        .text("Hello")
        .build()
}

#[test]
fn idempotency_key_in_extra_headers() {
    let req = SendEmailRequest::builder()
        .from("sender@example.com")
        .to(vec!["recipient@example.com".into()])
        .subject("Test")
        .text("Test")
        .idempotency_key("my-key")
        .build();

    let headers = req.extra_headers();
    assert_eq!(headers.len(), 1);
    assert_eq!(headers[0].0, "Idempotency-Key");
    assert_eq!(headers[0].1, "my-key");
}

#[test]
fn no_extra_headers_without_idempotency_key() {
    let req = SendEmailRequest::builder()
        .from("sender@example.com")
        .to(vec!["recipient@example.com".into()])
        .subject("Test")
        .text("Test")
        .build();

    assert!(req.extra_headers().is_empty());
}

#[test]
fn builder_sets_every_field() {
    let req = SendEmailRequest::builder()
        .subject("Newsletter")
        .from("John Doe <john@example.com>")
        .to(vec!["alice@example.com".into(), "bob@example.com".into()])
        .html("<h1>News</h1>")
        .text("News")
        .cc(vec!["cc@example.com".into()])
        .bcc(vec!["bcc@example.com".into()])
        .reply_to(vec!["reply@example.com".into()])
        .headers(HashMap::from([("X-Custom".into(), "value".into())]))
        .attachments(vec![
            Attachment::new("report.pdf", "base64data"),
            Attachment::inline("logo.png", "base64logo", "logo"),
        ])
        .route("my-route")
        .metadata(HashMap::from([("campaign".into(), "spring".into())]))
        .tag("newsletter")
        .idempotency_key("idem-key")
        .build();
    assert_eq!(req.from, "John Doe <john@example.com>");
    assert_eq!(req.to, vec!["alice@example.com".to_string(), "bob@example.com".to_string()]);
    assert_eq!(req.subject, "Newsletter");
    assert_eq!(req.html.as_deref(), Some("<h1>News</h1>"));
    assert_eq!(req.text.as_deref(), Some("News"));
    assert_eq!(req.cc, Some(vec!["cc@example.com".to_string()]));
    assert_eq!(req.bcc, Some(vec!["bcc@example.com".to_string()]));
    assert_eq!(req.reply_to, Some(vec!["reply@example.com".to_string()]));
    assert_eq!(req.headers.as_ref().unwrap()["X-Custom"], "value");
    assert_eq!(req.attachments.as_ref().unwrap().len(), 2);
    assert_eq!(req.route.as_deref(), Some("my-route"));
    assert_eq!(req.metadata.as_ref().unwrap()["campaign"], "spring");
    assert_eq!(req.tag.as_deref(), Some("newsletter"));
    assert_eq!(req.idempotency_key.as_deref(), Some("idem-key"));
    assert_eq!(req.endpoint(), "send");
}

#[test]
fn minimal_request_has_no_optional_fields() {
    let req = minimal_email();
    assert_eq!(req.html, None);
    assert_eq!(req.cc, None);
    assert_eq!(req.attachments, None);
    assert_eq!(req.idempotency_key, None);
}

#[test]
fn attachments() {
    let a = Attachment::new("report.pdf", "base64content");
    assert_eq!(a.filename, "report.pdf");
    assert_eq!(a.content, "base64content");
    assert_eq!(a.content_id, None);
    let b = Attachment::inline("logo.png", "base64logo", "logo");
    assert_eq!(b.content_id.as_deref(), Some("logo"));
    assert_eq!(b.content_type, None);
}

#[test]
fn email_status_names() {
    assert_eq!(EmailStatus::Queued.to_string(), "queued");
    assert_eq!(EmailStatus::SoftBounced.to_string(), "soft_bounced");
    assert_eq!(EmailStatus::HardBounced.as_str(), "hard_bounced");
    assert_eq!(EmailStatus::PolicyRejected.to_string(), "policy_rejected");
    assert_eq!(EmailStatus::SpamComplaint.to_string(), "spam_complaint");
}

#[test]
fn batch_limits_and_headers() {
    let batch = BatchSendRequest::new(vec![minimal_email(), minimal_email()]).unwrap();
    assert_eq!(batch.endpoint(), "send/batch");
    assert_eq!(batch.emails().len(), 2);
    assert!(batch.extra_headers().is_empty());
    let keyed = batch.with_idempotency_key("batch-key-456");
    let h = keyed.extra_headers();
    assert_eq!(h, vec![("Idempotency-Key".to_string(), "batch-key-456".to_string())]);

    let many: Vec<SendEmailRequest> = (0..MAX_BATCH_SIZE).map(|_| minimal_email()).collect();
    assert!(BatchSendRequest::new(many).is_ok());
    let too_many: Vec<SendEmailRequest> =
        (0..MAX_BATCH_SIZE + 1).map(|_| minimal_email()).collect();
    assert_eq!(
        BatchSendRequest::new(too_many).unwrap_err(),
        BatchError::TooManyEmails { count: 501 }
    );
}

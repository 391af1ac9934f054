# lettermint

A client library for the Lettermint email service whose core is verified
with Verus.

- `src/` is the verified library: the email and ping request types with
  their builder and headers, the planning of each HTTP request and the
  classification of the API's responses (`client.rs`), the `reqwest`
  client's configuration and URL joining (`reqwest_client.rs`), webhook
  signature verification (`webhook.rs`), the testing addresses
  (`testing/emails.rs`), and the text handling they share (`text.rs`).
  Calls into `hmac`, `hex`, `serde_json`, `reqwest` and the standard
  library's clock stand behind small trusted wrappers whose contracts are
  documented where they are declared.
- `app/` is the unverified transport around it: the `Endpoint`, `Query` and
  `Client` traits, the async request driver, JSON (de)serialization with
  `serde`, the `reqwest` implementation of `Client` (TLS through rustls), and the error types
  with `Display`.
- `tests/` exercises the library on concrete values.

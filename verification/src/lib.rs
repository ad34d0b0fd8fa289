//! Error classification and response rendering for a web backend.
//!
//! A failure of the persistence layer or of the human-verification step is
//! wrapped into [`ErrorKind`]. Each error has a stable numeric code, a message fit
//! for the end user and an HTTP status, and is rendered into a [`Response`]
//! with a JSON body of the fixed shape `{"code":<u64>,"err":"<string>"}`.

pub mod error;
pub mod hcaptcha;
pub mod json;
pub mod response;

pub use error::{ErrorDisplay, ErrorKind};
pub use hcaptcha::HcaptchaError;
pub use json::EncodeError;
pub use response::Response;

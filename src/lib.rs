//! Deciding whether an email address can receive mail without sending any:
//! which evidence source to trust for a mail exchanger, how SMTP replies turn
//! into a verdict, and when a failed SMTP attempt is retried.

pub mod outcome;
pub mod retry;
pub mod router;
pub mod session;
pub mod text;

pub use outcome::{SmtpDetails, SmtpError};

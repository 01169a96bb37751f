use vstd::prelude::*;

verus! {

/// Details gathered from talking to a mail exchanger over SMTP.
///
/// Every field starts out false and is set only on evidence.
#[derive(Clone, Copy, Debug, Default, PartialEq, Eq, Structural)]
pub struct SmtpDetails {
    /// Are we able to connect to the SMTP server?
    pub can_connect_smtp: bool,
    /// Is this email account's inbox full?
    pub has_full_inbox: bool,
    /// Does this domain have a catch-all email address?
    pub is_catch_all: bool,
    /// Can we send an email to this address?
    pub is_deliverable: bool,
    /// Is the email blocked or disabled by the provider?
    pub is_disabled: bool,
}

/// Why a check produced no verdict.
#[derive(Clone, Debug, PartialEq, Eq)]
pub enum SmtpError {
    /// Policy refuses to probe this domain at all.
    SkippedDomain(String),
    /// An attempt exceeded its deadline, given in milliseconds when one was set.
    TimeoutError(Option<u64>),
    /// A transport failure or a transient reply: worth another attempt.
    TransientError(String),
    /// A malformed or unexpected reply from the server.
    ProtocolError(String),
    /// The Yahoo API check failed.
    YahooError(String),
    /// The Gmail API check failed.
    GmailError(String),
    /// The Microsoft 365 API check failed.
    Microsoft365Error(String),
    /// The headless password-recovery probe failed.
    HeadlessError(String),
}

/// Errors after which another SMTP attempt may give a different answer.
pub open spec fn is_transient(e: SmtpError) -> bool {
    e is TransientError || e is TimeoutError
}

impl SmtpError {
    /// Whether another SMTP attempt may give a different answer.
    pub fn is_retryable(&self) -> (r: bool)
        ensures
            r == is_transient(*self),
    {
        match self {
            SmtpError::TransientError(_) => true,
            SmtpError::TimeoutError(_) => true,
            _ => false,
        }
    }
}

} // verus!

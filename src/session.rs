use vstd::prelude::*;

use crate::outcome::{SmtpDetails, SmtpError};
use crate::text::{chars_of, contains_chars, lower_text, lowercase_chars, text_contains};

verus! {

/// The reply text speaks of a mailbox over its storage quota.
pub open spec fn says_full_inbox(t: Seq<char>) -> bool {
    let l = lower_text(t);
    text_contains(l, "full"@) || text_contains(l, "quota"@) || text_contains(l, "insufficient"@)
        || text_contains(l, "too many messages"@)
}

/// The reply text speaks of an account that is blocked or disabled.
pub open spec fn says_disabled(t: Seq<char>) -> bool {
    let l = lower_text(t);
    text_contains(l, "disabled"@) || text_contains(l, "discontinued"@) || text_contains(l, "blocked"@)
}

/// The verdict fragment for a reply to `RCPT TO` with code `code` and text `t`,
/// when the reply is an answer about the mailbox.
pub open spec fn rcpt_verdict(code: u16, t: Seq<char>) -> SmtpDetails {
    SmtpDetails {
        can_connect_smtp: true,
        has_full_inbox: 400 <= code < 600 && says_full_inbox(t),
        is_catch_all: false,
        is_deliverable: 200 <= code < 300,
        is_disabled: 400 <= code < 600 && !says_full_inbox(t) && says_disabled(t),
    }
}

/// A reply to `RCPT TO` is an answer about the mailbox: an acceptance, a
/// permanent rejection, or a full or disabled mailbox.
pub open spec fn rcpt_is_answer(code: u16, t: Seq<char>) -> bool {
    200 <= code < 300 || 500 <= code < 600 || (400 <= code < 500 && (says_full_inbox(t) || says_disabled(t)))
}

/// Whether the lowercased reply text `l` holds `w1`, `w2` or `w3`.
fn mentions_any(l: &Vec<char>, w1: &str, w2: &str, w3: &str) -> (r: bool)
    ensures
        r == (text_contains(l@, w1@) || text_contains(l@, w2@) || text_contains(l@, w3@)),
{
    let c1 = chars_of(w1);
    let c2 = chars_of(w2);
    let c3 = chars_of(w3);
    contains_chars(l, &c1) || contains_chars(l, &c2) || contains_chars(l, &c3)
}

/// Whether the reply text speaks of a mailbox over its storage quota.
pub fn is_full_inbox(text: &str) -> (r: bool)
    ensures
        r == says_full_inbox(text@),
{
    let l = lowercase_chars(text);
    let c = chars_of("too many messages");
    mentions_any(&l, "full", "quota", "insufficient") || contains_chars(&l, &c)
}

/// Whether the reply text speaks of an account that is blocked or disabled.
pub fn is_disabled_account(text: &str) -> (r: bool)
    ensures
        r == says_disabled(text@),
{
    let l = lowercase_chars(text);
    mentions_any(&l, "disabled", "discontinued", "blocked")
}

/// Classify the server's reply to `RCPT TO` for the address under test, given
/// that the greeting, `EHLO` and `MAIL FROM` succeeded.
///
/// An acceptance makes the address deliverable; a full or disabled mailbox is
/// reported as such; any other permanent rejection leaves it undeliverable.
/// Any other transient reply is a transient error, and a code outside the
/// reply classes of SMTP is a protocol error; both carry the reply text.
pub fn classify_rcpt_reply(code: u16, text: &str) -> (r: Result<SmtpDetails, SmtpError>)
    ensures
        rcpt_is_answer(code, text@) ==> r == Ok::<SmtpDetails, SmtpError>(rcpt_verdict(code, text@)),
        !rcpt_is_answer(code, text@) && 400 <= code < 500 ==> (r matches Err(SmtpError::TransientError(m)) && m@ == text@),
        !rcpt_is_answer(code, text@) && !(400 <= code < 500) ==> (r matches Err(SmtpError::ProtocolError(m)) && m@ == text@),
{
    let full = is_full_inbox(text);
    let disabled = is_disabled_account(text);
    let negative = 400 <= code && code < 600;
    if (200 <= code && code < 300) || 500 <= code && code < 600 || (negative && (full || disabled)) {
        Ok(SmtpDetails {
            can_connect_smtp: true,
            has_full_inbox: negative && full,
            is_catch_all: false,
            is_deliverable: 200 <= code && code < 300,
            is_disabled: negative && !full && disabled,
        })
    } else if 400 <= code && code < 500 {
        Err(SmtpError::TransientError(text.to_owned()))
    } else {
        Err(SmtpError::ProtocolError(text.to_owned()))
    }
}

/// Record the reply to `RCPT TO` for a made-up local part at the same domain:
/// an acceptance there marks the domain catch-all, which leaves the other
/// fields as they were but makes a positive answer inconclusive.
pub fn with_catch_all_probe(details: SmtpDetails, probe_code: u16) -> (r: SmtpDetails)
    ensures
        r == (SmtpDetails { is_catch_all: 200 <= probe_code < 300, ..details }),
{
    SmtpDetails { is_catch_all: 200 <= probe_code && probe_code < 300, ..details }
}

} // verus!

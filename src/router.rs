use vstd::prelude::*;
use vstd::string::StringExecFns;

use crate::outcome::{SmtpDetails, SmtpError};
use crate::text::{
    chars_of, contains_chars, ends_with_chars, lower_text, lowercase_chars, text_contains,
    text_ends_with,
};

verus! {

/// Per-check policy, supplied by the caller and never changed by a check.
pub struct CheckEmailInput {
    /// Substrings of a mail exchanger's lowercased hostname that are never probed.
    pub skipped_domains: Vec<String>,
    /// Use the Yahoo API for Yahoo mail exchangers.
    pub yahoo_use_api: bool,
    /// Use the Gmail API for Google mail exchangers.
    pub gmail_use_api: bool,
    /// Use the Microsoft 365 API for Microsoft 365 mail exchangers.
    pub microsoft365_use_api: bool,
    /// A headless browser session is available for the Hotmail/Outlook recovery probe.
    pub hotmail_use_headless: bool,
    /// How many times a failed SMTP attempt is retried.
    pub retries: u32,
    /// Deadline of each SMTP attempt, in milliseconds.
    pub smtp_timeout_ms: Option<u64>,
}

impl CheckEmailInput {
    /// The skip-substrings as texts.
    pub open spec fn skipped(&self) -> Seq<Seq<char>> {
        self.skipped_domains@.map_values(|d: String| d@)
    }
}

impl Default for CheckEmailInput {
    /// iCloud mail exchangers are skipped, the Yahoo API is used, the other
    /// providers are checked over SMTP, with two retries and no deadline.
    fn default() -> (r: CheckEmailInput)
        ensures
            r.skipped() == seq!["icloud.com"@],
            r.yahoo_use_api,
            !r.gmail_use_api,
            !r.microsoft365_use_api,
            !r.hotmail_use_headless,
            r.retries == 2,
            r.smtp_timeout_ms is None,
    {
        let mut skipped_domains: Vec<String> = Vec::new();
        skipped_domains.push(String::from_str("icloud.com"));
        let r = CheckEmailInput {
            skipped_domains,
            yahoo_use_api: true,
            gmail_use_api: false,
            microsoft365_use_api: false,
            hotmail_use_headless: false,
            retries: 2,
            smtp_timeout_ms: None,
        };
        assert(r.skipped() =~= seq!["icloud.com"@]);
        r
    }
}

/// The evidence sources, in the order in which they are tried.
#[derive(Clone, Copy, Debug, PartialEq, Eq, Structural)]
pub enum Strategy {
    Yahoo,
    Gmail,
    Microsoft365,
    Headless,
    Smtp,
}

/// The three outcomes of the Microsoft 365 API.
#[derive(Clone, Debug, PartialEq, Eq)]
pub enum Microsoft365Outcome {
    /// The API gave a definite verdict.
    Definite(SmtpDetails),
    /// The API gave no definite answer.
    Ambiguous,
    /// The API call failed.
    Failed(String),
}

/// What the caller does next for one check.
#[derive(Debug, PartialEq, Eq)]
pub enum Step {
    /// The check is over with this result.
    Finish(Result<SmtpDetails, SmtpError>),
    /// Run this strategy next.
    Run(Strategy),
}

/// The lowercased hostname of a resolved mail exchanger.
pub struct MxHost {
    lower: Vec<char>,
}

impl View for MxHost {
    type V = Seq<char>;

    closed spec fn view(&self) -> Seq<char> {
        self.lower@
    }
}

impl MxHost {
    /// The host named by `host`, compared without regard to ASCII case.
    pub fn new(host: &str) -> (r: MxHost)
        ensures
            r@ == lower_text(host@),
    {
        MxHost { lower: lowercase_chars(host) }
    }

    /// Whether the lowercased hostname contains `part`.
    pub fn contains(&self, part: &str) -> (r: bool)
        ensures
            r == text_contains(self@, part@),
    {
        let p = chars_of(part);
        contains_chars(&self.lower, &p)
    }

    /// Whether the lowercased hostname ends with `suffix`.
    pub fn ends_with(&self, suffix: &str) -> (r: bool)
        ensures
            r == text_ends_with(self@, suffix@),
    {
        let p = chars_of(suffix);
        ends_with_chars(&self.lower, &p)
    }
}

/// Some skip-substring occurs in the lowercased hostname `h`.
pub open spec fn is_skipped(h: Seq<char>, skipped: Seq<Seq<char>>) -> bool {
    exists|i: int| 0 <= i < skipped.len() && text_contains(h, #[trigger] skipped[i])
}

/// The reason given when a domain is skipped.
pub open spec fn skip_reason(domain: Seq<char>) -> Seq<char> {
    "Reacher currently cannot verify emails from @"@ + domain
}

/// `e` is the refusal to probe `domain`.
pub open spec fn is_skip_of(e: SmtpError, domain: Seq<char>) -> bool {
    match e {
        SmtpError::SkippedDomain(m) => m@ == skip_reason(domain),
        _ => false,
    }
}

/// The Yahoo API is enabled and the hostname mentions Yahoo.
pub open spec fn yahoo_applies(h: Seq<char>, input: CheckEmailInput) -> bool {
    input.yahoo_use_api && text_contains(h, "yahoo"@)
}

/// The Gmail API is enabled and the hostname is under `google.com.`.
pub open spec fn gmail_applies(h: Seq<char>, input: CheckEmailInput) -> bool {
    input.gmail_use_api && text_ends_with(h, ".google.com."@)
}

/// The Microsoft 365 API is enabled and the hostname is a Microsoft 365 exchanger.
pub open spec fn microsoft365_applies(h: Seq<char>, input: CheckEmailInput) -> bool {
    input.microsoft365_use_api && text_ends_with(h, ".mail.protection.outlook.com."@)
}

/// A headless session is available and the hostname is a Hotmail/Outlook exchanger.
pub open spec fn headless_applies(h: Seq<char>, input: CheckEmailInput) -> bool {
    input.hotmail_use_headless && text_ends_with(h, "olc.protection.outlook.com."@)
}

/// The strategy that follows a Microsoft 365 answer that settled nothing.
pub open spec fn strategy_after_microsoft365(h: Seq<char>, input: CheckEmailInput) -> Strategy {
    if headless_applies(h, input) {
        Strategy::Headless
    } else {
        Strategy::Smtp
    }
}

/// The first strategy tried for the lowercased hostname `h`.
pub open spec fn first_strategy(h: Seq<char>, input: CheckEmailInput) -> Strategy {
    if yahoo_applies(h, input) {
        Strategy::Yahoo
    } else if gmail_applies(h, input) {
        Strategy::Gmail
    } else if microsoft365_applies(h, input) {
        Strategy::Microsoft365
    } else {
        strategy_after_microsoft365(h, input)
    }
}

/// The order of the providers is fixed: where the Yahoo pattern and the Gmail
/// pattern both match an enabled hostname, the Yahoo path is taken.
pub proof fn lemma_yahoo_before_gmail(h: Seq<char>, input: CheckEmailInput)
    requires
        yahoo_applies(h, input),
        gmail_applies(h, input),
    ensures
        first_strategy(h, input) == Strategy::Yahoo,
{
}

/// Each hostname leads to exactly one first strategy, and the Microsoft 365
/// API is only tried where neither the Yahoo nor the Gmail path applies.
pub proof fn lemma_strategy_priority(h: Seq<char>, input: CheckEmailInput)
    ensures
        first_strategy(h, input) == Strategy::Yahoo <==> yahoo_applies(h, input),
        first_strategy(h, input) == Strategy::Gmail <==> (!yahoo_applies(h, input) && gmail_applies(h, input)),
        first_strategy(h, input) == Strategy::Microsoft365 <==> (!yahoo_applies(h, input)
            && !gmail_applies(h, input) && microsoft365_applies(h, input)),
{
}

/// Whether any skip-substring of `input` occurs in `host`.
pub fn host_is_skipped(host: &MxHost, input: &CheckEmailInput) -> (r: bool)
    ensures
        r == is_skipped(host@, input.skipped()),
{
    let mut i: usize = 0;
    while i < input.skipped_domains.len()
        invariant
            i <= input.skipped_domains@.len(),
            forall|k: int| 0 <= k < i ==> !text_contains(host@, #[trigger] input.skipped()[k]),
        decreases input.skipped_domains@.len() - i,
    {
        assert(input.skipped()[i as int] == input.skipped_domains@[i as int]@);
        if host.contains(input.skipped_domains[i].as_str()) {
            return true;
        }
        i = i + 1;
    }
    false
}

/// The strategy that follows a Microsoft 365 answer that settled nothing.
pub fn next_after_microsoft365(host: &MxHost, input: &CheckEmailInput) -> (r: Strategy)
    ensures
        r == strategy_after_microsoft365(host@, *input),
{
    if input.hotmail_use_headless && host.ends_with("olc.protection.outlook.com.") {
        Strategy::Headless
    } else {
        Strategy::Smtp
    }
}

/// The first step of a check of an address whose mail exchanger is `host`,
/// for the address's `domain`: a refusal when the host is skipped, else the
/// first strategy that applies.
pub fn start_check(host: &MxHost, domain: &str, input: &CheckEmailInput) -> (r: Step)
    ensures
        is_skipped(host@, input.skipped()) ==> (r matches Step::Finish(Err(e)) && is_skip_of(e, domain@)),
        !is_skipped(host@, input.skipped()) ==> r == Step::Run(first_strategy(host@, *input)),
{
    if host_is_skipped(host, input) {
        let mut reason = String::from_str("Reacher currently cannot verify emails from @");
        reason.append(domain);
        return Step::Finish(Err(SmtpError::SkippedDomain(reason)));
    }
    if input.yahoo_use_api && host.contains("yahoo") {
        return Step::Run(Strategy::Yahoo);
    }
    if input.gmail_use_api && host.ends_with(".google.com.") {
        return Step::Run(Strategy::Gmail);
    }
    if input.microsoft365_use_api && host.ends_with(".mail.protection.outlook.com.") {
        return Step::Run(Strategy::Microsoft365);
    }
    Step::Run(next_after_microsoft365(host, input))
}

/// The step after the Microsoft 365 API answered: a definite verdict ends the
/// check; an ambiguous answer or a failure passes on to the next strategy.
pub fn after_microsoft365(host: &MxHost, input: &CheckEmailInput, outcome: Microsoft365Outcome) -> (r: Step)
    ensures
        outcome matches Microsoft365Outcome::Definite(d) ==> r == Step::Finish(Ok(d)),
        !(outcome is Definite) ==> r == Step::Run(strategy_after_microsoft365(host@, *input)),
{
    match outcome {
        Microsoft365Outcome::Definite(d) => Step::Finish(Ok(d)),
        _ => Step::Run(next_after_microsoft365(host, input)),
    }
}

/// The step after a strategy without fallthrough (Yahoo, Gmail, the headless
/// probe, or the retried SMTP probe) answered: its result ends the check as is.
pub fn after_final_strategy(result: Result<SmtpDetails, SmtpError>) -> (r: Step)
    ensures
        r == Step::Finish(result),
{
    Step::Finish(result)
}

} // verus!

use email_smtp_check::outcome::{SmtpDetails, SmtpError};
use email_smtp_check::retry::{after_attempt, RetryStep};
use email_smtp_check::router::{
    after_final_strategy, after_microsoft365, host_is_skipped, start_check, CheckEmailInput,
    Microsoft365Outcome, MxHost, Step, Strategy,
};
use email_smtp_check::session::{
    classify_rcpt_reply, is_disabled_account, is_full_inbox, with_catch_all_probe,
};
use email_smtp_check::text::{chars_of, contains_chars, ends_with_chars, lowercase_chars};

fn deliverable() -> SmtpDetails {
    SmtpDetails {
        can_connect_smtp: true,
        is_deliverable: true,
        ..SmtpDetails::default()
    }
}

fn no_providers() -> CheckEmailInput {
    CheckEmailInput {
        skipped_domains: vec![],
        yahoo_use_api: false,
        gmail_use_api: false,
        microsoft365_use_api: false,
        hotmail_use_headless: false,
        retries: 2,
        smtp_timeout_ms: None,
    }
}

/// Runs the SMTP path with a stub session that hands out `outcomes` in turn.
fn run_smtp(retries: u32, outcomes: Vec<Result<SmtpDetails, SmtpError>>) -> (Result<SmtpDetails, SmtpError>, u32) {
    let mut attempt: u32 = 0;
    for outcome in outcomes {
        attempt += 1;
        match after_attempt(attempt, retries, outcome) {
            RetryStep::Done(r) => return (r, attempt),
            RetryStep::Retry => {}
        }
    }
    panic!("the stub session ran out of outcomes");
}

#[test]
fn should_timeout() {
    let mut input = CheckEmailInput::default();
    input.smtp_timeout_ms = Some(1);
    let host = MxHost::new("gmail.com");
    assert_eq!(start_check(&host, "gmail.com", &input), Step::Run(Strategy::Smtp));
    let timeouts = vec![Err(SmtpError::TimeoutError(Some(1))); 3];
    let (res, attempts) = run_smtp(input.retries, timeouts);
    match res {
        Err(SmtpError::TimeoutError(_)) => (),
        _ => panic!("check_smtp did not time out"),
    }
    assert_eq!(attempts, 3);
}

#[test]
fn should_skip_domains() {
    let input = CheckEmailInput::default();
    let host = MxHost::new("mx01.mail.icloud.com.");
    let res = start_check(&host, "icloud.com", &input);
    match res {
        Step::Finish(Err(SmtpError::SkippedDomain(_))) => (),
        r => panic!("{:?}", r),
    }
}

#[test]
fn skip_reason_names_the_domain() {
    let input = CheckEmailInput::default();
    let host = MxHost::new("MX01.MAIL.ICLOUD.COM.");
    assert_eq!(
        start_check(&host, "icloud.com", &input),
        Step::Finish(Err(SmtpError::SkippedDomain(
            "Reacher currently cannot verify emails from @icloud.com".to_string()
        )))
    );
}

#[test]
fn skip_wins_over_every_provider() {
    let mut input = no_providers();
    input.skipped_domains = vec!["yahoo".to_string()];
    input.yahoo_use_api = true;
    input.gmail_use_api = true;
    input.microsoft365_use_api = true;
    input.hotmail_use_headless = true;
    let host = MxHost::new("mta5.am0.yahoodns.net.");
    assert!(host_is_skipped(&host, &input));
    assert!(matches!(
        start_check(&host, "yahoo.com", &input),
        Step::Finish(Err(SmtpError::SkippedDomain(_)))
    ));
}

#[test]
fn skip_substring_is_case_sensitive_against_lowercased_host() {
    let mut input = no_providers();
    input.skipped_domains = vec!["ICLOUD".to_string()];
    let host = MxHost::new("mx01.mail.icloud.com.");
    assert!(!host_is_skipped(&host, &input));
    assert_eq!(start_check(&host, "icloud.com", &input), Step::Run(Strategy::Smtp));
}

#[test]
fn yahoo_wins_over_gmail() {
    let mut input = no_providers();
    input.yahoo_use_api = true;
    input.gmail_use_api = true;
    let host = MxHost::new("mx.yahoo.google.com.");
    assert_eq!(start_check(&host, "example.com", &input), Step::Run(Strategy::Yahoo));
    input.yahoo_use_api = false;
    assert_eq!(start_check(&host, "example.com", &input), Step::Run(Strategy::Gmail));
}

#[test]
fn gmail_needs_the_exact_suffix() {
    let mut input = no_providers();
    input.gmail_use_api = true;
    let host = MxHost::new("Alt1.Gmail-Smtp-In.L.Google.COM.");
    assert_eq!(start_check(&host, "gmail.com", &input), Step::Run(Strategy::Gmail));
    let host = MxHost::new("gmail-smtp-in.l.google.com");
    assert_eq!(start_check(&host, "gmail.com", &input), Step::Run(Strategy::Smtp));
}

#[test]
fn microsoft365_definite_short_circuits() {
    let mut input = no_providers();
    input.microsoft365_use_api = true;
    input.hotmail_use_headless = true;
    let host = MxHost::new("contoso-com.mail.protection.outlook.com.");
    assert_eq!(start_check(&host, "contoso.com", &input), Step::Run(Strategy::Microsoft365));
    let d = deliverable();
    assert_eq!(
        after_microsoft365(&host, &input, Microsoft365Outcome::Definite(d)),
        Step::Finish(Ok(d))
    );
}

#[test]
fn microsoft365_ambiguous_falls_through_to_smtp() {
    let mut input = no_providers();
    input.microsoft365_use_api = true;
    let host = MxHost::new("contoso-com.mail.protection.outlook.com.");
    assert_eq!(start_check(&host, "contoso.com", &input), Step::Run(Strategy::Microsoft365));
    assert_eq!(
        after_microsoft365(&host, &input, Microsoft365Outcome::Ambiguous),
        Step::Run(Strategy::Smtp)
    );
    let verdict = SmtpDetails {
        can_connect_smtp: true,
        is_catch_all: true,
        is_deliverable: true,
        ..SmtpDetails::default()
    };
    let (res, _) = run_smtp(input.retries, vec![Ok(verdict)]);
    assert_eq!(after_final_strategy(res), Step::Finish(Ok(verdict)));
}

#[test]
fn microsoft365_failure_falls_through_to_headless() {
    let mut input = no_providers();
    input.microsoft365_use_api = true;
    input.hotmail_use_headless = true;
    let host = MxHost::new("eur.olc.protection.outlook.com.");
    assert_eq!(
        after_microsoft365(&host, &input, Microsoft365Outcome::Failed("503".to_string())),
        Step::Run(Strategy::Headless)
    );
    let host = MxHost::new("contoso-com.mail.protection.outlook.com.");
    assert_eq!(
        after_microsoft365(&host, &input, Microsoft365Outcome::Failed("503".to_string())),
        Step::Run(Strategy::Smtp)
    );
}

#[test]
fn headless_needs_a_session() {
    let mut input = no_providers();
    let host = MxHost::new("hotmail-com.olc.protection.outlook.com.");
    assert_eq!(start_check(&host, "hotmail.com", &input), Step::Run(Strategy::Smtp));
    input.hotmail_use_headless = true;
    assert_eq!(start_check(&host, "hotmail.com", &input), Step::Run(Strategy::Headless));
}

#[test]
fn provider_errors_end_the_check() {
    let err = Err(SmtpError::YahooError("unreachable".to_string()));
    assert_eq!(after_final_strategy(err.clone()), Step::Finish(err));
}

#[test]
fn retry_until_success() {
    let transient = || Err(SmtpError::TransientError("connection reset".to_string()));
    let (res, attempts) = run_smtp(3, vec![transient(), transient(), transient(), Ok(deliverable())]);
    assert_eq!(res, Ok(deliverable()));
    assert_eq!(attempts, 4);
}

#[test]
fn transient_failures_exhaust_retries() {
    let transient = || Err(SmtpError::TransientError("connection refused".to_string()));
    let (res, attempts) = run_smtp(1, vec![transient(), transient(), Ok(deliverable())]);
    assert_eq!(res, transient());
    assert_eq!(attempts, 2);
}

#[test]
fn definitive_errors_are_not_retried() {
    let skip = Err(SmtpError::SkippedDomain("x".to_string()));
    assert_eq!(after_attempt(1, 5, skip.clone()), RetryStep::Done(skip));
    let rejection = Err(SmtpError::ProtocolError("bad reply".to_string()));
    assert_eq!(after_attempt(1, 5, rejection.clone()), RetryStep::Done(rejection));
    assert_eq!(after_attempt(1, 5, Ok(deliverable())), RetryStep::Done(Ok(deliverable())));
}

#[test]
fn zero_retries_make_one_attempt() {
    let timeout = Err(SmtpError::TimeoutError(Some(1)));
    assert_eq!(after_attempt(1, 0, timeout.clone()), RetryStep::Done(timeout));
}

#[test]
fn rcpt_accepted_is_deliverable() {
    assert_eq!(classify_rcpt_reply(250, "2.1.5 OK"), Ok(deliverable()));
}

#[test]
fn rcpt_full_inbox() {
    let r = classify_rcpt_reply(552, "5.2.2 The email account that you tried to reach is over quota");
    assert_eq!(
        r,
        Ok(SmtpDetails { can_connect_smtp: true, has_full_inbox: true, ..SmtpDetails::default() })
    );
    let r = classify_rcpt_reply(452, "Mailbox FULL");
    assert_eq!(
        r,
        Ok(SmtpDetails { can_connect_smtp: true, has_full_inbox: true, ..SmtpDetails::default() })
    );
}

#[test]
fn rcpt_disabled_account() {
    let r = classify_rcpt_reply(550, "5.2.1 The email account that you tried to reach is disabled");
    assert_eq!(
        r,
        Ok(SmtpDetails { can_connect_smtp: true, is_disabled: true, ..SmtpDetails::default() })
    );
}

#[test]
fn rcpt_rejected_is_undeliverable() {
    let r = classify_rcpt_reply(550, "5.1.1 User unknown");
    assert_eq!(r, Ok(SmtpDetails { can_connect_smtp: true, ..SmtpDetails::default() }));
}

#[test]
fn rcpt_transient_and_malformed_replies() {
    assert_eq!(
        classify_rcpt_reply(451, "try again later"),
        Err(SmtpError::TransientError("try again later".to_string()))
    );
    assert_eq!(
        classify_rcpt_reply(999, "what"),
        Err(SmtpError::ProtocolError("what".to_string()))
    );
}

#[test]
fn catch_all_probe() {
    let d = with_catch_all_probe(deliverable(), 250);
    assert!(d.is_catch_all && d.is_deliverable && d.can_connect_smtp);
    let d = with_catch_all_probe(deliverable(), 550);
    assert_eq!(d, deliverable());
}

#[test]
fn reply_wording() {
    assert!(is_full_inbox("Insufficient system storage"));
    assert!(is_full_inbox("Too many messages in mailbox"));
    assert!(!is_full_inbox("User unknown"));
    assert!(is_disabled_account("Account DISCONTINUED"));
    assert!(!is_disabled_account("User unknown"));
}

#[test]
fn text_helpers() {
    assert_eq!(lowercase_chars("MX.Yahoo.COM."), chars_of("mx.yahoo.com."));
    assert_eq!(lowercase_chars("ÄB"), vec!['Ä', 'b']);
    let hay = chars_of("abcabd");
    assert!(contains_chars(&hay, &chars_of("cab")));
    assert!(contains_chars(&hay, &chars_of("")));
    assert!(!contains_chars(&hay, &chars_of("abe")));
    assert!(ends_with_chars(&hay, &chars_of("abd")));
    assert!(!ends_with_chars(&hay, &chars_of("abc")));
    assert!(!ends_with_chars(&chars_of("bd"), &chars_of("abd")));
}

#[test]
fn default_policy() {
    let input = CheckEmailInput::default();
    assert_eq!(input.skipped_domains, vec!["icloud.com".to_string()]);
    assert!(input.yahoo_use_api && !input.gmail_use_api && !input.microsoft365_use_api);
    assert_eq!(input.retries, 2);
    assert_eq!(input.smtp_timeout_ms, None);
}

use domain_for_sale::captcha::{VerificationError, VerificationOutcome};
use domain_for_sale::config::MailConfig;
use domain_for_sale::form::{Offer, OfferCurrency};
use domain_for_sale::handler::{Event, OfferFlow, Step};

fn alice() -> Offer {
    Offer {
        name: "Alice".to_owned(),
        email: "alice@example.com".to_owned(),
        currency: OfferCurrency::USDT,
        captcha: "0123456789abcdef".to_owned(),
    }
}

fn mail_cfg(timeout: i64) -> MailConfig {
    MailConfig {
        address: "seller@example.com".to_owned(),
        password: "SECRET-REDACTED".to_owned(),
        server: "smtp.example.com".to_owned(),
        to: "owner@example.com".to_owned(),
        timeout,
    }
}

#[test]
fn example_scenario_success_path() {
    let cfg = mail_cfg(5);
    let (mut flow, step) = OfferFlow::start(alice());
    match step {
        Step::CallVerify { token } => assert_eq!(token, "0123456789abcdef"),
        _ => panic!("expected the verification call"),
    }
    let step = flow.step(&cfg, Event::VerifyDone(VerificationOutcome::Verified(true)));
    match step {
        Step::StartNotify { subject, body, timeout } => {
            assert_eq!(subject, "来自Alice的意向");
            assert_eq!(body, "联系人：Alice\n邮箱：alice@example.com\n货币：USDT\n");
            assert_eq!(timeout, 5);
        }
        _ => panic!("expected the notification to start"),
    }
    let step = flow.step(&cfg, Event::NotifyDone(true));
    match step {
        Step::Respond { result: Ok(resp), abort_notify } => {
            assert_eq!(resp.code, 0);
            assert_eq!(resp.msg, "OK");
            assert_eq!(resp.data, "alice@example.com");
            assert!(!abort_notify);
        }
        _ => panic!("expected the success envelope"),
    }
}

#[test]
fn invalid_form_is_rejected_before_verification() {
    let mut offer = alice();
    offer.captcha = "short".to_owned();
    let (_, step) = OfferFlow::start(offer);
    match step {
        Step::Respond { result: Err(e), abort_notify } => {
            assert_eq!(e.msg(), "请完成人机验证/Please complete Captcha");
            assert!(!abort_notify);
        }
        _ => panic!("expected immediate rejection"),
    }
}

#[test]
fn negative_verdict_never_reaches_notification() {
    let cfg = mail_cfg(5);
    let (mut flow, _) = OfferFlow::start(alice());
    let step = flow.step(&cfg, Event::VerifyDone(VerificationOutcome::Verified(false)));
    match step {
        Step::Respond { result: Err(e), abort_notify } => {
            assert_eq!(e.msg(), "请完成人机验证/Please complete captcha");
            assert!(!abort_notify);
        }
        _ => panic!("a negative verdict must respond, not notify"),
    }
}

#[test]
fn unavailable_verification_is_reported_as_timeout() {
    let cfg = mail_cfg(5);
    for err in [
        VerificationError::Timeout,
        VerificationError::Transport,
        VerificationError::MalformedResponse,
    ] {
        let (mut flow, _) = OfferFlow::start(alice());
        let step = flow.step(&cfg, Event::VerifyDone(VerificationOutcome::Unavailable(err)));
        match step {
            Step::Respond { result: Err(e), abort_notify } => {
                assert_eq!(e.msg(), "人机验证超时/Timeout for verify captcha");
                assert!(!abort_notify);
            }
            _ => panic!("an unavailable verifier must respond, not notify"),
        }
    }
}

#[test]
fn deadline_firing_cancels_the_send_and_reports_timeout() {
    let cfg = mail_cfg(1);
    let (mut flow, _) = OfferFlow::start(alice());
    let _ = flow.step(&cfg, Event::VerifyDone(VerificationOutcome::Verified(true)));
    let step = flow.step(&cfg, Event::DeadlineFired);
    match step {
        Step::Respond { result: Err(e), abort_notify } => {
            assert_eq!(e.msg(), "发送邮件超时/Timeout for sending mail");
            assert!(abort_notify);
        }
        _ => panic!("the deadline must resolve the race with a timeout failure"),
    }
}

#[test]
fn failed_send_is_reported() {
    let cfg = mail_cfg(5);
    let (mut flow, _) = OfferFlow::start(alice());
    let _ = flow.step(&cfg, Event::VerifyDone(VerificationOutcome::Verified(true)));
    let step = flow.step(&cfg, Event::NotifyDone(false));
    match step {
        Step::Respond { result: Err(e), abort_notify } => {
            assert_eq!(e.msg(), "发送邮件失败/Failed to send email");
            assert!(!abort_notify);
        }
        _ => panic!("a failed send must be reported"),
    }
}

#[test]
fn each_stub_outcome_yields_exactly_one_response() {
    let cfg = mail_cfg(5);
    for event in [Event::NotifyDone(true), Event::NotifyDone(false), Event::DeadlineFired] {
        let (mut flow, first) = OfferFlow::start(alice());
        let mut responses = 0;
        if matches!(first, Step::Respond { .. }) {
            responses += 1;
        }
        let second = flow.step(&cfg, Event::VerifyDone(VerificationOutcome::Verified(true)));
        if matches!(second, Step::Respond { .. }) {
            responses += 1;
        }
        let third = flow.step(&cfg, event);
        if matches!(third, Step::Respond { .. }) {
            responses += 1;
        }
        assert_eq!(responses, 1);
    }
}

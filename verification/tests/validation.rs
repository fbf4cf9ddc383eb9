use domain_for_sale::form::{Offer, OfferCurrency};

fn offer(name: &str, email: &str, captcha: &str) -> Offer {
    Offer {
        name: name.to_owned(),
        email: email.to_owned(),
        currency: OfferCurrency::USDT,
        captcha: captcha.to_owned(),
    }
}

#[test]
fn well_formed_offer_is_accepted() {
    let o = offer("Alice", "alice@example.com", "0123456789abcdef");
    assert!(o.validate().is_ok());
}

#[test]
fn name_too_short_is_rejected() {
    let o = offer("A", "alice@example.com", "0123456789abcdef");
    let errs = o.validate().unwrap_err();
    assert_eq!(errs.len(), 1);
    assert_eq!(errs[0].field, "name");
    assert_eq!(errs[0].message, "请输入正确的联系人/Please enter your full name");
}

#[test]
fn name_too_long_is_rejected() {
    let long_name: String = "x".repeat(51);
    let o = offer(&long_name, "alice@example.com", "0123456789abcdef");
    let errs = o.validate().unwrap_err();
    assert_eq!(errs.len(), 1);
    assert_eq!(errs[0].field, "name");
}

#[test]
fn name_length_bounds_are_inclusive() {
    assert!(offer("ab", "alice@example.com", "0123456789abcdef").validate().is_ok());
    let fifty: String = "x".repeat(50);
    assert!(offer(&fifty, "alice@example.com", "0123456789abcdef").validate().is_ok());
}

#[test]
fn misshapen_email_is_rejected() {
    let o = offer("Alice", "not-an-email", "0123456789abcdef");
    let errs = o.validate().unwrap_err();
    assert_eq!(errs.len(), 1);
    assert_eq!(errs[0].field, "email");
    assert_eq!(errs[0].message, "请输入正确的邮箱/Please enter your email");
}

#[test]
fn email_too_long_is_rejected() {
    let local: String = "a".repeat(64);
    let label: String = "b".repeat(60);
    let email = format!("{}@{}.{}.{}.{}", local, label, label, label, label);
    assert!(email.chars().count() > 255);
    let o = offer("Alice", &email, "0123456789abcdef");
    let errs = o.validate().unwrap_err();
    assert_eq!(errs[0].field, "email");
}

#[test]
fn short_token_is_rejected() {
    let o = offer("Alice", "alice@example.com", "123456789012345");
    let errs = o.validate().unwrap_err();
    assert_eq!(errs.len(), 1);
    assert_eq!(errs[0].field, "captcha");
    assert_eq!(errs[0].message, "请完成人机验证/Please complete Captcha");
}

#[test]
fn sixteen_character_token_is_accepted() {
    let o = offer("Alice", "alice@example.com", "1234567890123456");
    assert!(o.validate().is_ok());
}

#[test]
fn all_violations_are_reported_together_in_field_order() {
    let o = offer("A", "x", "short");
    let errs = o.validate().unwrap_err();
    assert_eq!(errs.len(), 3);
    assert_eq!(errs[0].field, "name");
    assert_eq!(errs[1].field, "email");
    assert_eq!(errs[2].field, "captcha");
}

#[test]
fn currency_labels() {
    assert_eq!(OfferCurrency::USDT.as_str(), "USDT");
    assert_eq!(OfferCurrency::CNY.as_str(), "CNY");
}

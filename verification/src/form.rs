//! The submission form and its validation rules: name length in [2, 50],
//! email length in [3, 255] and email-shaped, a closed currency enumeration,
//! and a verification token of at least 16 characters. All violations are
//! reported together, one entry per violated field, each with the bilingual
//! message the API promises.

use vstd::prelude::*;

verus! {

/// The closed set of currencies an offer may be made in. Unknown values are
/// rejected at the deserialization boundary, before a form exists.
#[derive(Clone, Copy, PartialEq, Eq, Structural, Debug)]
pub enum OfferCurrency {
    USDT,
    CNY,
}

/// The label the currency carries in the notification message.
pub open spec fn currency_label(c: OfferCurrency) -> Seq<char> {
    match c {
        OfferCurrency::USDT => "USDT"@,
        OfferCurrency::CNY => "CNY"@,
    }
}

impl OfferCurrency {
    /// The currency's label as text.
    pub fn as_str(&self) -> (r: &'static str)
        ensures
            r@ == currency_label(*self),
    {
        match self {
            OfferCurrency::USDT => "USDT",
            OfferCurrency::CNY => "CNY",
        }
    }
}

/// One lead-generation submission, exactly as deserialized from the request
/// body; `captcha` carries the human-verification token.
pub struct Offer {
    pub name: String,
    pub email: String,
    pub currency: OfferCurrency,
    pub captcha: String,
}

/// The mathematical content of an offer: its text fields as character
/// sequences and its currency.
pub struct OfferView {
    pub name: Seq<char>,
    pub email: Seq<char>,
    pub currency: OfferCurrency,
    pub captcha: Seq<char>,
}

impl View for Offer {
    type V = OfferView;

    open spec fn view(&self) -> OfferView {
        OfferView {
            name: self.name@,
            email: self.email@,
            currency: self.currency,
            captcha: self.captcha@,
        }
    }
}

/// Whether `s` is shaped like an email address.
///
/// The shape is decided by the `validator` crate (the HTML5 valid-email
/// grammar plus IDN and IP-literal domains); this names its result, which
/// depends on the characters alone.
pub uninterp spec fn email_shape(s: Seq<char>) -> bool;

/// Relies on validator's `ValidateEmail` for `&str`: whether the string is a
/// valid email address per the HTML5 grammar. The result is a pure function
/// of the characters.
#[verifier::external_body]
fn is_email_shaped(s: &str) -> (r: bool)
    ensures
        r == email_shape(s@),
{
    validator::ValidateEmail::validate_email(&s)
}

/// The name rule: between 2 and 50 characters.
pub open spec fn name_ok(name: Seq<char>) -> bool {
    2 <= name.len() <= 50
}

/// The email rule: between 3 and 255 characters and email-shaped.
pub open spec fn email_ok(email: Seq<char>) -> bool {
    &&& 3 <= email.len() <= 255
    &&& email_shape(email)
}

/// The verification-token rule: at least 16 characters.
pub open spec fn captcha_ok(captcha: Seq<char>) -> bool {
    captcha.len() >= 16
}

/// A well-formed offer: every field rule holds. The currency needs no rule;
/// the enumeration is closed.
pub open spec fn offer_valid(o: OfferView) -> bool {
    &&& name_ok(o.name)
    &&& email_ok(o.email)
    &&& captcha_ok(o.captcha)
}

/// One reported violation: the offending field and its bilingual message.
pub struct ValidationError {
    pub field: String,
    pub message: String,
}

/// The mathematical content of a reported violation.
pub struct ValidationErrorView {
    pub field: Seq<char>,
    pub message: Seq<char>,
}

impl View for ValidationError {
    type V = ValidationErrorView;

    open spec fn view(&self) -> ValidationErrorView {
        ValidationErrorView { field: self.field@, message: self.message@ }
    }
}

/// The violation reported for a name outside [2, 50].
pub open spec fn name_violation() -> ValidationErrorView {
    ValidationErrorView {
        field: "name"@,
        message: "请输入正确的联系人/Please enter your full name"@,
    }
}

/// The violation reported for an email outside [3, 255] or not email-shaped.
pub open spec fn email_violation() -> ValidationErrorView {
    ValidationErrorView {
        field: "email"@,
        message: "请输入正确的邮箱/Please enter your email"@,
    }
}

/// The violation reported for a verification token shorter than 16.
pub open spec fn captcha_violation() -> ValidationErrorView {
    ValidationErrorView {
        field: "captcha"@,
        message: "请完成人机验证/Please complete Captcha"@,
    }
}

/// All violations of an offer, in field order: name, then email, then the
/// verification token. Empty exactly when the offer is well-formed.
pub open spec fn violations(o: OfferView) -> Seq<ValidationErrorView> {
    (if !name_ok(o.name) {
        seq![name_violation()]
    } else {
        Seq::<ValidationErrorView>::empty()
    }) + (if !email_ok(o.email) {
        seq![email_violation()]
    } else {
        Seq::<ValidationErrorView>::empty()
    }) + (if !captcha_ok(o.captcha) {
        seq![captcha_violation()]
    } else {
        Seq::<ValidationErrorView>::empty()
    })
}

impl Offer {
    /// Checks every field rule and reports all violations together.
    ///
    /// Returns `Ok(())` exactly on well-formed offers; otherwise the reported
    /// list holds one entry per violated field, in field order, with the
    /// field's bilingual message.
    pub fn validate(&self) -> (r: Result<(), Vec<ValidationError>>)
        ensures
            r is Ok <==> offer_valid(self@),
            r matches Err(v) ==> v@.map_values(|e: ValidationError| e@) == violations(self@),
    {
        let mut errs: Vec<ValidationError> = Vec::new();

        let name_len = self.name.as_str().unicode_len();
        if !(2 <= name_len && name_len <= 50) {
            errs.push(ValidationError {
                field: "name".to_owned(),
                message: "请输入正确的联系人/Please enter your full name".to_owned(),
            });
        }

        let email_len = self.email.as_str().unicode_len();
        if !(3 <= email_len && email_len <= 255 && is_email_shaped(self.email.as_str())) {
            errs.push(ValidationError {
                field: "email".to_owned(),
                message: "请输入正确的邮箱/Please enter your email".to_owned(),
            });
        }

        let captcha_len = self.captcha.as_str().unicode_len();
        if captcha_len < 16 {
            errs.push(ValidationError {
                field: "captcha".to_owned(),
                message: "请完成人机验证/Please complete Captcha".to_owned(),
            });
        }

        if errs.len() == 0 {
            assert(errs@.map_values(|e: ValidationError| e@) =~= violations(self@));
            Ok(())
        } else {
            assert(errs@.map_values(|e: ValidationError| e@) =~= violations(self@));
            Err(errs)
        }
    }
}

} // verus!

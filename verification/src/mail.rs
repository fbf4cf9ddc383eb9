//! The notification message. Composing it — addresses from the configuration,
//! the given subject and body — is the library's work; handing it to the
//! authenticated relay is transport and lives outside. Each composed message
//! stands for exactly one send attempt: no retry, no queuing.

use vstd::prelude::*;
use crate::config::MailConfig;
use crate::form::{currency_label, Offer, OfferView};

verus! {

/// The subject line announcing an offer from `name`.
pub open spec fn mail_subject(name: Seq<char>) -> Seq<char> {
    "来自"@ + name + "的意向"@
}

/// The message body: the submitter's name, email and currency, one line each.
pub open spec fn mail_body(o: OfferView) -> Seq<char> {
    "联系人："@ + o.name + "\n邮箱："@ + o.email + "\n货币："@ + currency_label(o.currency) + "\n"@
}

/// Composes the subject line of the notification for a submitter's name.
pub fn compose_subject(name: &str) -> (r: String)
    ensures
        r@ == mail_subject(name@),
{
    let mut s: String = "来自".to_owned();
    s.append(name);
    s.append("的意向");
    proof {
        assert(s@ =~= mail_subject(name@));
    }
    s
}

/// Composes the body of the notification from the submitted offer.
pub fn compose_body(offer: &Offer) -> (r: String)
    ensures
        r@ == mail_body(offer@),
{
    let mut s: String = "联系人：".to_owned();
    s.append(offer.name.as_str());
    s.append("\n邮箱：");
    s.append(offer.email.as_str());
    s.append("\n货币：");
    s.append(offer.currency.as_str());
    s.append("\n");
    proof {
        assert(s@ =~= mail_body(offer@));
    }
    s
}

/// One plain-text notification message, ready for the relay.
pub struct MailMessage {
    pub from: String,
    pub to: String,
    pub subject: String,
    pub body: String,
}

impl MailMessage {
    /// Composes the single notification message of a submission: addressed
    /// from the configured account to the configured recipient, with the
    /// given subject and body.
    pub fn new(cfg: &MailConfig, subject: String, body: String) -> (m: MailMessage)
        ensures
            m.from@ == cfg.address@,
            m.to@ == cfg.to@,
            m.subject@ == subject@,
            m.body@ == body@,
    {
        MailMessage {
            from: cfg.address.clone(),
            to: cfg.to.clone(),
            subject,
            body,
        }
    }
}

} // verus!

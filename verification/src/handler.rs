//! The two request handlers.
//!
//! [`OfferFlow`] is the submission orchestrator: a state machine that
//! validates the form, gates it behind the human-verification verdict, and
//! decides the outcome of the race between the notification send and its
//! deadline. The surrounding runtime performs each returned [`Step`] — the
//! outbound verification call, spawning the send beside a timer — and hands
//! the resulting [`Event`] back; every decision is made here and verified.
//!
//! [`static_handler`] resolves any other request path against the embedded
//! asset set: the root and `index.html` serve the index document, a known
//! asset is served under its guessed content type, an unknown path with an
//! extension is not found, and an unknown extensionless path falls back to
//! the index document (which is itself not found when no index is embedded).

use vstd::prelude::*;
use crate::captcha::VerificationOutcome;
use crate::config::MailConfig;
use crate::err::Error;
use crate::form::{offer_valid, violations, Offer, OfferView};
use crate::mail::{compose_body, compose_subject, mail_body, mail_subject};
use crate::resp::Resp;

verus! {

/// Where a submission stands: waiting for the verification verdict, waiting
/// for the notification race to resolve, or finished.
pub enum Phase {
    AwaitingVerification,
    Notifying,
    Done,
}

/// What the runtime reports back to the orchestrator: the verification
/// verdict, the send finishing (successfully or not), or the deadline firing
/// before the send finished.
pub enum Event {
    VerifyDone(VerificationOutcome),
    NotifyDone(bool),
    DeadlineFired,
}

/// What the runtime must do next: make the verification call with this token,
/// start the notification send beside a deadline of `timeout` seconds, or
/// answer the request. `abort_notify` asks the runtime to cancel an in-flight
/// send whose deadline fired; its eventual completion stays unobservable.
pub enum Step {
    CallVerify { token: String },
    StartNotify { subject: String, body: String, timeout: i64 },
    Respond { result: Result<Resp<String>, Error>, abort_notify: bool },
}

/// Which events a phase can accept: a verification verdict only while one is
/// awaited, a send completion or the deadline only while notifying, and
/// nothing once finished.
pub open spec fn event_fits(phase: Phase, ev: Event) -> bool {
    match phase {
        Phase::AwaitingVerification => ev is VerifyDone,
        Phase::Notifying => ev is NotifyDone || ev is DeadlineFired,
        Phase::Done => false,
    }
}

/// The phase an accepted event leads to: only a positive verification verdict
/// advances towards notification; every other event finishes the request.
pub open spec fn advance(ev: Event) -> Phase {
    match ev {
        Event::VerifyDone(VerificationOutcome::Verified(true)) => Phase::Notifying,
        _ => Phase::Done,
    }
}

/// One submission being orchestrated.
pub struct OfferFlow {
    phase: Phase,
    offer: Offer,
}

impl OfferFlow {
    /// The phase the flow is in.
    pub closed spec fn phase(&self) -> Phase {
        self.phase
    }

    /// The submission the flow is about.
    pub closed spec fn offer_view(&self) -> OfferView {
        self.offer@
    }

    /// Begins the pipeline on a deserialized form.
    ///
    /// A well-formed offer awaits verification and asks for the verification
    /// call on the submitted token; an ill-formed one is rejected at once
    /// with the first violated field's message.
    pub fn start(offer: Offer) -> (r: (OfferFlow, Step))
        ensures
            r.0.offer_view() == offer@,
            offer_valid(offer@) ==> {
                &&& r.0.phase() == Phase::AwaitingVerification
                &&& r.1 matches Step::CallVerify { token } && token@ == offer@.captcha
            },
            !offer_valid(offer@) ==> {
                &&& r.0.phase() == Phase::Done
                &&& r.1 matches Step::Respond { result, abort_notify } && result matches Err(e)
                    && e.msg_view() == violations(offer@)[0].message && abort_notify == false
            },
    {
        match offer.validate() {
            Ok(()) => {
                let token = offer.captcha.clone();
                (
                    OfferFlow { phase: Phase::AwaitingVerification, offer },
                    Step::CallVerify { token },
                )
            },
            Err(errs) => {
                assert(errs@.len() == violations(offer@).len());
                assert(violations(offer@).len() > 0);
                let msg = errs[0].message.clone();
                assert(errs@.map_values(|e: crate::form::ValidationError| e@)[0] == violations(
                    offer@,
                )[0]);
                (
                    OfferFlow { phase: Phase::Done, offer },
                    Step::Respond { result: Err(Error::new(msg)), abort_notify: false },
                )
            },
        }
    }

    /// Advances the flow by one accepted event and decides the next step.
    ///
    /// Anything but a positive verification verdict finishes the request with
    /// its failure message; a positive verdict starts the notification race;
    /// the race resolves exactly once, into success carrying the submitted
    /// email, a send failure, or a timeout that also cancels the send. A step
    /// answers the request exactly when it finishes the flow.
    pub fn step(&mut self, mail_cfg: &MailConfig, event: Event) -> (r: Step)
        requires
            event_fits(old(self).phase(), event),
        ensures
            final(self).offer_view() == old(self).offer_view(),
            final(self).phase() == advance(event),
            r is Respond <==> advance(event) == Phase::Done,
            match event {
                Event::VerifyDone(VerificationOutcome::Verified(true)) => (r matches
                    Step::StartNotify { subject, body, timeout }
                    && subject@ == mail_subject(old(self).offer_view().name)
                    && body@ == mail_body(old(self).offer_view())
                    && timeout == mail_cfg.timeout),
                Event::VerifyDone(VerificationOutcome::Verified(false)) => (r matches
                    Step::Respond { result, abort_notify }
                    && result matches Err(e)
                    && e.msg_view() == "请完成人机验证/Please complete captcha"@
                    && abort_notify == false),
                Event::VerifyDone(VerificationOutcome::Unavailable(_)) => (r matches
                    Step::Respond { result, abort_notify }
                    && result matches Err(e)
                    && e.msg_view() == "人机验证超时/Timeout for verify captcha"@
                    && abort_notify == false),
                Event::NotifyDone(true) => (r matches Step::Respond { result, abort_notify }
                    && result matches Ok(resp)
                    && resp.code == 0
                    && resp.msg@ == "OK"@
                    && resp.data@ == old(self).offer_view().email
                    && abort_notify == false),
                Event::NotifyDone(false) => (r matches Step::Respond { result, abort_notify }
                    && result matches Err(e)
                    && e.msg_view() == "发送邮件失败/Failed to send email"@
                    && abort_notify == false),
                Event::DeadlineFired => (r matches Step::Respond { result, abort_notify }
                    && result matches Err(e)
                    && e.msg_view() == "发送邮件超时/Timeout for sending mail"@
                    && abort_notify == true),
            },
    {
        match event {
            Event::VerifyDone(outcome) => match outcome {
                VerificationOutcome::Verified(true) => {
                    self.phase = Phase::Notifying;
                    let subject = compose_subject(self.offer.name.as_str());
                    let body = compose_body(&self.offer);
                    Step::StartNotify { subject, body, timeout: mail_cfg.timeout }
                },
                VerificationOutcome::Verified(false) => {
                    self.phase = Phase::Done;
                    Step::Respond {
                        result: Err(Error::new("请完成人机验证/Please complete captcha".to_owned())),
                        abort_notify: false,
                    }
                },
                VerificationOutcome::Unavailable(_) => {
                    self.phase = Phase::Done;
                    Step::Respond {
                        result: Err(Error::new("人机验证超时/Timeout for verify captcha".to_owned())),
                        abort_notify: false,
                    }
                },
            },
            Event::NotifyDone(sent) => {
                self.phase = Phase::Done;
                if sent {
                    Step::Respond {
                        result: Ok(Resp::ok(self.offer.email.clone())),
                        abort_notify: false,
                    }
                } else {
                    Step::Respond {
                        result: Err(Error::new("发送邮件失败/Failed to send email".to_owned())),
                        abort_notify: false,
                    }
                }
            },
            Event::DeadlineFired => {
                self.phase = Phase::Done;
                Step::Respond {
                    result: Err(Error::new("发送邮件超时/Timeout for sending mail".to_owned())),
                    abort_notify: true,
                }
            },
        }
    }
}

/// The phase reached by running the machine from `init` through `evs`.
pub open spec fn run_phase(init: Phase, evs: Seq<Event>) -> Phase
    decreases evs.len(),
{
    if evs.len() == 0 {
        init
    } else {
        run_phase(advance(evs[0]), evs.drop_first())
    }
}

/// Whether every event of `evs`, in order, is accepted from `init`.
pub open spec fn trace_fits(init: Phase, evs: Seq<Event>) -> bool
    decreases evs.len(),
{
    evs.len() == 0 || (event_fits(init, evs[0]) && trace_fits(advance(evs[0]), evs.drop_first()))
}

/// How many events of `evs` answer the request: by [`OfferFlow::step`], a
/// step responds exactly when its event finishes the flow.
pub open spec fn count_responses(evs: Seq<Event>) -> nat
    decreases evs.len(),
{
    if evs.len() == 0 {
        0
    } else {
        (if advance(evs[0]) == Phase::Done {
            1nat
        } else {
            0nat
        }) + count_responses(evs.drop_first())
    }
}

/// A finished flow accepts no further event: the only trace from `Done` is
/// the empty one.
proof fn lemma_done_accepts_nothing(evs: Seq<Event>)
    requires
        trace_fits(Phase::Done, evs),
    ensures
        evs.len() == 0,
        count_responses(evs) == 0,
        run_phase(Phase::Done, evs) == Phase::Done,
{
    if evs.len() > 0 {
        assert(event_fits(Phase::Done, evs[0]));
    }
}

/// The verification gate: any verdict other than a positive one finishes the
/// flow, so the notification stage is never reached.
pub proof fn lemma_verification_gate(outcome: VerificationOutcome)
    requires
        outcome != VerificationOutcome::Verified(true),
    ensures
        advance(Event::VerifyDone(outcome)) == Phase::Done,
{
}

/// While a flow is still running, it has answered nothing: an accepted trace
/// that does not finish the flow contains no responding step.
pub proof fn lemma_no_response_while_running(init: Phase, evs: Seq<Event>)
    requires
        trace_fits(init, evs),
        run_phase(init, evs) != Phase::Done,
    ensures
        count_responses(evs) == 0,
    decreases evs.len(),
{
    if evs.len() > 0 {
        if advance(evs[0]) == Phase::Done {
            lemma_done_accepts_nothing(evs.drop_first());
            assert(run_phase(init, evs) == Phase::Done);
        }
        lemma_no_response_while_running(advance(evs[0]), evs.drop_first());
    }
}

/// Exactly one response: an accepted trace that finishes the flow contains
/// exactly one responding step — none is dropped, none is duplicated.
pub proof fn lemma_exactly_one_response(init: Phase, evs: Seq<Event>)
    requires
        init != Phase::Done,
        trace_fits(init, evs),
        run_phase(init, evs) == Phase::Done,
    ensures
        count_responses(evs) == 1,
    decreases evs.len(),
{
    if evs.len() == 0 {
        assert(run_phase(init, evs) == init);
    }
    if advance(evs[0]) == Phase::Done {
        lemma_done_accepts_nothing(evs.drop_first());
    } else {
        lemma_exactly_one_response(advance(evs[0]), evs.drop_first());
    }
}

/// The decision taken for a request path outside the API.
pub enum StaticRoute {
    Asset { content_type: String },
    Index,
    NotFound,
}

/// The path with its leading slashes removed: the key a request path is
/// resolved under in the asset set.
pub open spec fn trim_slashes(s: Seq<char>) -> Seq<char>
    decreases s.len(),
{
    if s.len() > 0 && s[0] == '/' {
        trim_slashes(s.drop_first())
    } else {
        s
    }
}

/// Whether the path contains a dot, the mark of an asset-like path that must
/// not fall back to the index document.
pub open spec fn has_dot(s: Seq<char>) -> bool {
    exists|i: int| 0 <= i < s.len() && s[i] == '.'
}

/// The content type guessed from a path's extension.
///
/// The guess is made by the `mime_guess` crate; this names its result, which
/// depends on the path alone.
pub uninterp spec fn mime_for_path(path: Seq<char>) -> Seq<char>;

/// Relies on mime_guess::from_path(..).first_or_octet_stream(): the content
/// type for a path's extension, a pure table lookup on the path.
#[verifier::external_body]
fn guess_mime(path: &str) -> (r: String)
    ensures
        r@ == mime_for_path(path@),
{
    let mime = mime_guess::from_path(path).first_or_octet_stream();
    let s: &str = mime.as_ref();
    s.to_owned()
}

proof fn lemma_trim_skip(s: Seq<char>, i: int)
    requires
        0 <= i <= s.len(),
        forall|k: int| 0 <= k < i ==> s[k] == '/',
        i == s.len() || s[i] != '/',
    ensures
        trim_slashes(s) == s.skip(i),
    decreases i,
{
    if i == 0 {
        assert(s.skip(0) =~= s);
    } else {
        assert(s[0] == '/');
        assert(s.drop_first() =~= s.skip(1));
        assert forall|k: int| 0 <= k < i - 1 implies s.skip(1)[k] == '/' by {
            assert(s.skip(1)[k] == s[k + 1]);
        }
        if i < s.len() {
            assert(s.skip(1)[i - 1] == s[i]);
        }
        lemma_trim_skip(s.skip(1), i - 1);
        assert(s.skip(1).skip(i - 1) =~= s.skip(i));
    }
}

/// The key a request path is looked up under in the asset set: the path with
/// its leading slashes removed.
pub fn asset_key(uri_path: &str) -> (r: String)
    ensures
        r@ == trim_slashes(uri_path@),
{
    let len = uri_path.unicode_len();
    let mut i: usize = 0;
    while i < len && uri_path.get_char(i) == '/'
        invariant
            i <= len,
            len == uri_path@.len(),
            forall|k: int| 0 <= k < i ==> uri_path@[k] == '/',
        decreases len - i,
    {
        i += 1;
    }
    let rest = uri_path.substring_char(i, len);
    proof {
        lemma_trim_skip(uri_path@, i as int);
        assert(uri_path@.subrange(i as int, len as int) =~= uri_path@.skip(i as int));
    }
    rest.to_owned()
}

fn contains_dot(s: &str) -> (r: bool)
    ensures
        r == has_dot(s@),
{
    let len = s.unicode_len();
    let mut i: usize = 0;
    while i < len
        invariant
            i <= len,
            len == s@.len(),
            forall|k: int| 0 <= k < i ==> s@[k] != '.',
        decreases len - i,
    {
        if s.get_char(i) == '.' {
            assert(has_dot(s@)) by {
                assert(0 <= i < s@.len() && s@[i as int] == '.');
            }
            return true;
        }
        i += 1;
    }
    false
}

/// Resolves a request path against the asset set.
///
/// `asset_found` says whether the set holds the path's key (as computed by
/// [`asset_key`]); `index_found` whether it holds `index.html`. The empty key
/// and `index.html` itself serve the index document; a found asset is served
/// under its guessed content type; an unresolved key with a dot is not found;
/// an unresolved extensionless key falls back to the index document. Serving
/// the index document when none is embedded is not found.
pub fn static_handler(uri_path: &str, asset_found: bool, index_found: bool) -> (r: StaticRoute)
    ensures
        ({
            let p = trim_slashes(uri_path@);
            if p.len() == 0 || p == "index.html"@ {
                if index_found {
                    r is Index
                } else {
                    r is NotFound
                }
            } else if asset_found {
                r matches StaticRoute::Asset { content_type } && content_type@ == mime_for_path(p)
            } else if has_dot(p) {
                r is NotFound
            } else {
                if index_found {
                    r is Index
                } else {
                    r is NotFound
                }
            }
        }),
{
    let key = asset_key(uri_path);
    let index_name: String = "index.html".to_owned();
    if key.as_str().unicode_len() == 0 || key == index_name {
        if index_found {
            StaticRoute::Index
        } else {
            StaticRoute::NotFound
        }
    } else if asset_found {
        let content_type = guess_mime(key.as_str());
        StaticRoute::Asset { content_type }
    } else if contains_dot(key.as_str()) {
        StaticRoute::NotFound
    } else {
        if index_found {
            StaticRoute::Index
        } else {
            StaticRoute::NotFound
        }
    }
}

/// The not-found reply of the static fallback: status 404, body `"404"`.
pub fn not_found() -> (r: (u16, String))
    ensures
        r.0 == 404,
        r.1@ == "404"@,
{
    (404, "404".to_owned())
}

} // verus!

//! Paths served by the gateway, the stages of a form submission and the
//! answers of the form handler.

use crate::ctx::verdict;
use crate::ctx::Ctx;
use crate::ctx::ServiceReply;
use crate::ctx::VerifyError;
use crate::text::replace_all;
use crate::text::replaced;
use crate::weburl::url_text;
use vstd::prelude::*;
use vstd::string::StringExecFns;

verus! {

/// The paths under which the gateway serves its pages.
#[derive(Debug)]
pub struct Routes {
    pub index: &'static str,
    pub index_js: &'static str,
    pub success: &'static str,
}

impl Routes {
    /// The fixed route table.
    pub fn new() -> (r: Self)
        ensures
            r.index@ == "/"@,
            r.index_js@ == "/index.js"@,
            r.success@ == "/success"@,
    {
        let index = "/";
        let index_js = "/index.js";
        let success = "/success";
        Routes { index, index_js, success }
    }
}

/// The form that a visitor submits to the protected page.
#[derive(Debug)]
#[allow(non_snake_case)]
pub struct RegisterProtected {
    pub name: String,
    pub comment: String,
    pub mcaptcha__token: String,
}

/// An answer to the visitor: a status, the address to go to if it is a
/// redirect, and a body of plain text.
#[derive(Debug)]
pub struct Reply {
    pub status: u16,
    pub location: Option<String>,
    pub body: String,
}

/// The text of an answer, field by field.
pub struct ReplyText {
    pub status: u16,
    pub location: Option<Seq<char>>,
    pub body: Seq<char>,
}

impl View for Reply {
    type V = ReplyText;

    open spec fn view(&self) -> ReplyText {
        ReplyText {
            status: self.status,
            location: match self.location {
                Some(l) => Some(l@),
                None => None,
            },
            body: self.body@,
        }
    }
}

/// The stages of a form submission.
#[derive(Clone, Copy, Debug, PartialEq, Eq, Structural)]
pub enum FormState {
    /// The form has arrived with a token.
    Received,
    /// The token is with the captcha service.
    Verifying,
    /// The service confirmed the token.
    Admitted,
    /// The service refused the token.
    Rejected,
    /// The service gave no answer that could be used.
    Unavailable,
}

/// What moves a form submission on.
#[derive(Clone, Copy, Debug)]
pub enum FormEvent {
    /// The token has been sent to the captcha service.
    Sent,
    /// The verification has ended with this outcome.
    Settled(Result<bool, VerifyError>),
}

/// The answer when the service confirmed the token: a redirect to the
/// success page.
pub open spec fn admitted_reply() -> ReplyText {
    ReplyText { status: 302, location: Some("/success"@), body: Seq::empty() }
}

/// The answer when the service refused the token.
pub open spec fn rejected_reply() -> ReplyText {
    ReplyText { status: 400, location: None, body: "Invalid Captcha"@ }
}

/// The answer when the service gave no answer that could be used.
pub open spec fn unavailable_reply() -> ReplyText {
    ReplyText { status: 502, location: None, body: "Captcha verification unavailable"@ }
}

/// The stage in which a verification with this outcome ends.
pub open spec fn settled_state(outcome: Result<bool, VerifyError>) -> FormState {
    match outcome {
        Ok(true) => FormState::Admitted,
        Ok(false) => FormState::Rejected,
        Err(_) => FormState::Unavailable,
    }
}

/// The answer to a submission whose verification had this outcome.
pub open spec fn reply_for(outcome: Result<bool, VerifyError>) -> ReplyText {
    match outcome {
        Ok(true) => admitted_reply(),
        Ok(false) => rejected_reply(),
        Err(_) => unavailable_reply(),
    }
}

impl FormState {
    /// True for the stages in which a submission ends.
    pub open spec fn is_final(self) -> bool {
        self == FormState::Admitted || self == FormState::Rejected || self
            == FormState::Unavailable
    }

    /// The stage that follows on an event, or nothing where the event has
    /// no place in this stage.
    pub open spec fn spec_step(self, event: FormEvent) -> Option<FormState> {
        match (self, event) {
            (FormState::Received, FormEvent::Sent) => Some(FormState::Verifying),
            (FormState::Verifying, FormEvent::Settled(outcome)) => Some(settled_state(outcome)),
            _ => None,
        }
    }

    /// The answer that a stage gives to the visitor, if it gives one.
    pub open spec fn spec_reply(self) -> Option<ReplyText> {
        match self {
            FormState::Admitted => Some(admitted_reply()),
            FormState::Rejected => Some(rejected_reply()),
            FormState::Unavailable => Some(unavailable_reply()),
            _ => None,
        }
    }

    /// Moves a submission on by one event.
    pub fn step(self, event: &FormEvent) -> (r: Option<FormState>)
        ensures
            r == self.spec_step(*event),
    {
        match (self, event) {
            (FormState::Received, FormEvent::Sent) => Some(FormState::Verifying),
            (FormState::Verifying, FormEvent::Settled(outcome)) => match outcome {
                Ok(true) => Some(FormState::Admitted),
                Ok(false) => Some(FormState::Rejected),
                Err(_) => Some(FormState::Unavailable),
            },
            _ => None,
        }
    }

    /// The answer to the visitor once the submission has ended.
    pub fn reply(self) -> (r: Option<Reply>)
        ensures
            (match r {
                Some(reply) => Some(reply@),
                None => None,
            }) == self.spec_reply(),
            r is Some <==> self.is_final(),
    {
        match self {
            FormState::Admitted => Some(admitted()),
            FormState::Rejected => Some(rejected()),
            FormState::Unavailable => Some(unavailable()),
            _ => None,
        }
    }
}

/// Builds the redirect to the success page.
fn admitted() -> (r: Reply)
    ensures
        r@ == admitted_reply(),
{
    Reply {
        status: 302,
        location: Some(String::from_str(Routes::new().success)),
        body: String::new(),
    }
}

/// Builds the answer to a refused token.
fn rejected() -> (r: Reply)
    ensures
        r@ == rejected_reply(),
{
    Reply { status: 400, location: None, body: String::from_str("Invalid Captcha") }
}

/// Builds the answer for a verification without a usable outcome.
fn unavailable() -> (r: Reply)
    ensures
        r@ == unavailable_reply(),
{
    Reply {
        status: 502,
        location: None,
        body: String::from_str("Captcha verification unavailable"),
    }
}

/// The marker that stands for the widget's address in the template of the
/// protected page.
pub open spec fn widget_marker() -> Seq<char> {
    "MCAPTCHA_URL_REPLACEME"@
}

/// The protected page: `template` with the widget's address of `ctx` in
/// place of every marker.
pub fn protected_page(template: &str, ctx: &Ctx) -> (r: String)
    ensures
        r@ == replaced(template@, widget_marker(), url_text(ctx.captcha_path)),
{
    replace_all(template, "MCAPTCHA_URL_REPLACEME", ctx.widget_path())
}

/// Answers a submission whose verification had this outcome: a redirect
/// to the success page where the service confirmed the token, a client
/// error where it refused it, and a gateway error where it gave no answer
/// that could be used.
pub fn protected(outcome: &Result<bool, VerifyError>) -> (r: Reply)
    ensures
        r@ == reply_for(*outcome),
{
    match outcome {
        Ok(true) => admitted(),
        Ok(false) => rejected(),
        Err(_) => unavailable(),
    }
}

/// A submission that has ended takes no further event: there is no retry
/// within one submission.
pub proof fn lemma_final_states_stay(state: FormState, event: FormEvent)
    requires
        state.is_final(),
    ensures
        state.spec_step(event) is None,
{
}

/// A submission that is sent and then settled ends, whatever the outcome,
/// in a final stage whose answer is the one for that outcome. It is
/// admitted only where the outcome is a confirmation.
pub proof fn lemma_submission_ends(outcome: Result<bool, VerifyError>)
    ensures
        FormState::Received.spec_step(FormEvent::Sent) == Some(FormState::Verifying),
        FormState::Verifying.spec_step(FormEvent::Settled(outcome)) == Some(settled_state(outcome)),
        settled_state(outcome).is_final(),
        settled_state(outcome).spec_reply() == Some(reply_for(outcome)),
        settled_state(outcome) == FormState::Admitted <==> outcome == Ok::<bool, VerifyError>(true),
{
}

/// A visitor is redirected to the success page only where the service
/// responded with a status of success and confirmed the token. A refusal
/// is answered with a client error, and a verification without a usable
/// answer with a gateway error.
pub proof fn lemma_reply_follows_service(reply: ServiceReply)
    ensures
        reply_for(verdict(reply)) == admitted_reply() <==> verdict(reply) == Ok::<
            bool,
            VerifyError,
        >(true),
        verdict(reply) == Ok::<bool, VerifyError>(false) ==> reply_for(verdict(reply))
            == rejected_reply(),
        verdict(reply) is Err ==> reply_for(verdict(reply)) == unavailable_reply(),
{
}

} // verus!

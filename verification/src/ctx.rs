//! The state that every request handler shares, and the exchange with the
//! captcha service that decides on a token.

use crate::creds::build_config;
use crate::creds::creds_filters;
use crate::creds::creds_password_limits;
use crate::endpoints::derive_verify_endpoint;
use crate::endpoints::derive_widget_endpoint;
use crate::endpoints::is_verify_endpoint;
use crate::endpoints::is_widget_endpoint;
use crate::endpoints::verify_endpoint_fits;
use crate::endpoints::widget_endpoint_fits;
use crate::endpoints::EndpointError;
use crate::settings::Settings;
use crate::weburl::url_text;
use argon2_creds::Config;
use url::Url;
use vstd::prelude::*;
use vstd::string::StringExecFns;

verus! {

/// The shared state: built once at startup and only read afterwards.
pub struct Ctx {
    /// Configuration of the credential filters.
    pub creds: Config,
    /// The settings that the state was built from.
    pub settings: Settings,
    /// Where tokens are verified.
    pub verify_path: Url,
    /// Where the service shows its widget for this site.
    pub captcha_path: Url,
}

impl Ctx {
    /// The state is well formed when both endpoints are derived from the
    /// base URL in the settings, all credential filters are on and the
    /// password policy is the default one.
    pub open spec fn wf(&self) -> bool {
        &&& creds_filters(self.creds) == (true, true, true)
        &&& creds_password_limits(self.creds) == (8usize, 64usize, 32usize)
        &&& is_verify_endpoint(self.verify_path, self.settings.captcha.mcaptcha_url)
        &&& is_widget_endpoint(
            self.captcha_path,
            self.settings.captcha.mcaptcha_url,
            self.settings.captcha.sitekey@,
        )
    }

    /// The credential configuration of the gateway: username case mapping,
    /// profanity filter and blacklist all on, with the default password
    /// policy, which takes passwords of 8 to 64 bytes and salts them with
    /// 32. Every call gives a configuration with these values.
    pub fn get_creds() -> (r: Config)
        ensures
            creds_filters(r) == (true, true, true),
            creds_password_limits(r) == (8usize, 64usize, 32usize),
    {
        build_config(true, true, true).unwrap()
    }

    /// Tells whether startup waits until the credential filters are
    /// initialized before the gateway serves. It does, unless a fast start
    /// was asked for.
    pub fn waits_for_creds(fast_start: bool) -> (r: bool)
        ensures
            r == !fast_start,
    {
        !fast_start
    }

    /// Builds the shared state from the settings.
    ///
    /// Fails only where an endpoint could be too long for a URL.
    pub fn new(s: &Settings) -> (r: Result<Ctx, EndpointError>)
        ensures
            r is Ok <==> verify_endpoint_fits(s.captcha.mcaptcha_url) && widget_endpoint_fits(
                s.captcha.mcaptcha_url,
                s.captcha.sitekey@,
            ),
            r matches Ok(ctx) ==> ctx.settings == *s && ctx.wf(),
    {
        let creds = Self::get_creds();
        let verify_path = match derive_verify_endpoint(&s.captcha.mcaptcha_url) {
            Ok(u) => u,
            Err(e) => {
                return Err(e);
            },
        };
        let captcha_path = match derive_widget_endpoint(
            &s.captcha.mcaptcha_url,
            s.captcha.sitekey.as_str(),
        ) {
            Ok(u) => u,
            Err(e) => {
                return Err(e);
            },
        };
        Ok(Ctx { creds, settings: s.clone(), verify_path, captcha_path })
    }

    /// The address to which tokens are sent for verification.
    pub fn verify_path(&self) -> (r: &str)
        ensures
            r@ == url_text(self.verify_path),
    {
        self.verify_path.as_str()
    }

    /// The address of the widget, to embed in the protected page.
    pub fn widget_path(&self) -> (r: &str)
        ensures
            r@ == url_text(self.captcha_path),
    {
        self.captcha_path.as_str()
    }

    /// Opens the verification of `token`: the result holds what has to be
    /// sent to the service, and where. The token is passed on as it is,
    /// whatever it holds.
    pub fn verify_token(&self, token: &str) -> (r: Verifying)
        ensures
            r.endpoint@ == url_text(self.verify_path),
            r.payload@ == payload_for(*self, token@),
    {
        Verifying {
            endpoint: String::from_str(self.verify_path()),
            payload: CaptchaVerfiyPayload::from_ctx(self, token),
        }
    }
}

/// What the service is told: the visitor's token, and the site key and the
/// account secret of the gateway. The type has no `Debug`, so that the
/// secret is not printed by accident.
pub struct CaptchaVerfiyPayload {
    pub token: String,
    pub key: String,
    pub secret: String,
}

/// The text of a payload, field by field.
pub struct PayloadText {
    pub token: Seq<char>,
    pub key: Seq<char>,
    pub secret: Seq<char>,
}

impl View for CaptchaVerfiyPayload {
    type V = PayloadText;

    open spec fn view(&self) -> PayloadText {
        PayloadText { token: self.token@, key: self.key@, secret: self.secret@ }
    }
}

/// The payload for `token` under the site key and account secret of `ctx`.
pub open spec fn payload_for(ctx: Ctx, token: Seq<char>) -> PayloadText {
    PayloadText {
        token,
        key: ctx.settings.captcha.sitekey@,
        secret: ctx.settings.captcha.account_secret@,
    }
}

impl CaptchaVerfiyPayload {
    /// Builds the payload for `token` under the site key and account
    /// secret of `ctx`.
    pub fn from_ctx(ctx: &Ctx, token: &str) -> (r: Self)
        ensures
            r@ == payload_for(*ctx, token@),
    {
        CaptchaVerfiyPayload {
            key: ctx.settings.captcha.sitekey.clone(),
            token: String::from_str(token),
            secret: ctx.settings.captcha.account_secret.clone(),
        }
    }

    /// The payload as the service reads it: an object of exactly three
    /// fields, given here by name and value.
    pub fn fields(&self) -> (r: Vec<(&'static str, &str)>)
        ensures
            r@.len() == 3,
            r@[0].0@ == "token"@ && r@[0].1@ == self.token@,
            r@[1].0@ == "key"@ && r@[1].1@ == self.key@,
            r@[2].0@ == "secret"@ && r@[2].1@ == self.secret@,
    {
        vec![
            ("token", self.token.as_str()),
            ("key", self.key.as_str()),
            ("secret", self.secret.as_str()),
        ]
    }
}

/// What the service answers.
#[derive(Clone, Copy, Debug, PartialEq, Eq, Structural)]
pub struct CaptchaVerifyResp {
    pub valid: bool,
}

impl Default for CaptchaVerifyResp {
    fn default() -> (r: Self)
        ensures
            !r.valid,
    {
        CaptchaVerifyResp { valid: false }
    }
}

/// What came back from one request to the service.
#[derive(Clone, Copy, Debug, PartialEq, Eq, Structural)]
pub enum ServiceReply {
    /// The request failed before any response arrived.
    Unreachable,
    /// A response arrived with this status. `body` holds the answer that
    /// its body was read as, or nothing where it could not be read as one.
    Responded { status: u16, body: Option<CaptchaVerifyResp> },
}

/// Why a verification could not be completed.
#[derive(Clone, Copy, Debug, PartialEq, Eq, Structural)]
pub enum VerifyError {
    /// The service could not be reached.
    Unreachable,
    /// The service responded with a status outside 200 to 299.
    Status(u16),
    /// The body of the response was not an answer.
    Body,
}

/// The outcome of a verification for which `reply` came back: the
/// service's own answer where it gave one with a status of success, and
/// otherwise the reason for which there is none.
pub open spec fn verdict(reply: ServiceReply) -> Result<bool, VerifyError> {
    match reply {
        ServiceReply::Unreachable => Err(VerifyError::Unreachable),
        ServiceReply::Responded { status, body } => {
            if !(200 <= status <= 299) {
                Err(VerifyError::Status(status))
            } else {
                match body {
                    None => Err(VerifyError::Body),
                    Some(answer) => Ok(answer.valid),
                }
            }
        },
    }
}

/// A verification that is under way: the request to send, and where.
pub struct Verifying {
    /// Address of the verification endpoint.
    pub endpoint: String,
    /// What to send there.
    pub payload: CaptchaVerfiyPayload,
}

impl Verifying {
    /// The outcome once `reply` has come back, which depends on nothing
    /// but that reply.
    pub open spec fn spec_complete(self, reply: ServiceReply) -> Result<bool, VerifyError> {
        verdict(reply)
    }

    /// Completes the verification with what came back from the service.
    pub fn complete(&self, reply: &ServiceReply) -> (r: Result<bool, VerifyError>)
        ensures
            r == self.spec_complete(*reply),
    {
        match reply {
            ServiceReply::Unreachable => Err(VerifyError::Unreachable),
            ServiceReply::Responded { status, body } => {
                if *status < 200 || *status > 299 {
                    Err(VerifyError::Status(*status))
                } else {
                    match body {
                        None => Err(VerifyError::Body),
                        Some(answer) => Ok(answer.valid),
                    }
                }
            },
        }
    }
}

/// Whatever the token, a response with a status of success and an answer
/// gives exactly that answer: a confirmation admits and a refusal rejects.
pub proof fn lemma_answer_decides(pending: Verifying, status: u16, valid: bool)
    requires
        200 <= status <= 299,
    ensures
        pending.spec_complete(
            ServiceReply::Responded { status, body: Some(CaptchaVerifyResp { valid }) },
        ) == Ok::<bool, VerifyError>(valid),
{
}

/// A request that failed, a status outside 200 to 299 and a body that is
/// no answer each give an error that names the cause, and never an
/// answer.
pub proof fn lemma_failure_is_error(
    pending: Verifying,
    status: u16,
    body: Option<CaptchaVerifyResp>,
)
    ensures
        pending.spec_complete(ServiceReply::Unreachable) == Err::<bool, VerifyError>(
            VerifyError::Unreachable,
        ),
        !(200 <= status <= 299) ==> pending.spec_complete(
            ServiceReply::Responded { status, body },
        ) == Err::<bool, VerifyError>(VerifyError::Status(status)),
        200 <= status <= 299 ==> pending.spec_complete(
            ServiceReply::Responded { status, body: None },
        ) == Err::<bool, VerifyError>(VerifyError::Body),
{
}

/// Two verifications opened from one state do not touch each other: each
/// carries its own token beside the shared key and secret, and each
/// outcome is decided by its own reply alone.
pub proof fn lemma_verifications_independent(
    ctx: Ctx,
    first: Verifying,
    second: Verifying,
    first_token: Seq<char>,
    second_token: Seq<char>,
    first_reply: ServiceReply,
    second_reply: ServiceReply,
)
    requires
        first.payload@ == payload_for(ctx, first_token),
        second.payload@ == payload_for(ctx, second_token),
    ensures
        first.payload@.token == first_token,
        second.payload@.token == second_token,
        first.payload@.key == second.payload@.key,
        first.payload@.secret == second.payload@.secret,
        first.spec_complete(first_reply) == verdict(first_reply),
        second.spec_complete(second_reply) == verdict(second_reply),
{
}

} // verus!

use argon2_creds::CredsError;
use mcaptcha_showcase::ctx::CaptchaVerfiyPayload;
use mcaptcha_showcase::ctx::CaptchaVerifyResp;
use mcaptcha_showcase::ctx::Ctx;
use mcaptcha_showcase::ctx::ServiceReply;
use mcaptcha_showcase::ctx::VerifyError;
use mcaptcha_showcase::endpoints::share_origin;
use mcaptcha_showcase::routes::protected;
use mcaptcha_showcase::routes::FormEvent;
use mcaptcha_showcase::routes::FormState;
use mcaptcha_showcase::routes::RegisterProtected;
use mcaptcha_showcase::routes::Routes;
use mcaptcha_showcase::settings::RawSettings;
use mcaptcha_showcase::settings::Server;
use mcaptcha_showcase::settings::Settings;

fn settings(mcaptcha_url: &str, sitekey: &str) -> Settings {
    Settings::new(RawSettings {
        debug: false,
        server: Server { port: 7000, domain: "localhost".to_string(), ip: "0.0.0.0".to_string() },
        sitekey: sitekey.to_string(),
        mcaptcha_url: mcaptcha_url.to_string(),
        account_secret: "account-secret".to_string(),
        source_code: "https://github.com/mCaptcha/showcase".to_string(),
    })
    .unwrap()
}

fn ctx() -> Ctx {
    Ctx::new(&settings("https://demo.mcaptcha.org", "site-key")).unwrap()
}

fn answered(status: u16, valid: bool) -> ServiceReply {
    ServiceReply::Responded { status, body: Some(CaptchaVerifyResp { valid }) }
}

#[test]
fn routes_new_has_the_fixed_paths() {
    let r = Routes::new();
    assert_eq!(r.index, "/");
    assert_eq!(r.index_js, "/index.js");
    assert_eq!(r.success, "/success");
}

#[test]
fn ctx_new_derives_both_endpoints() {
    let c = ctx();
    assert_eq!(c.verify_path(), "https://demo.mcaptcha.org/api/v1/pow/siteverify");
    assert_eq!(c.widget_path(), "https://demo.mcaptcha.org/widget?sitekey=site-key");
    assert_eq!(c.verify_path.as_str(), c.verify_path());
    assert_eq!(c.captcha_path.as_str(), c.widget_path());
}

#[test]
fn ctx_new_keeps_the_settings() {
    let s = settings("http://localhost:7000/base/", "k");
    let c = Ctx::new(&s).unwrap();
    assert_eq!(c.settings.debug, s.debug);
    assert_eq!(c.settings.server.get_ip(), "0.0.0.0:7000");
    assert_eq!(c.settings.captcha.sitekey, "k");
    assert_eq!(c.settings.captcha.account_secret, "account-secret");
    assert_eq!(c.settings.captcha.mcaptcha_url.as_str(), "http://localhost:7000/base/");
    assert_eq!(c.settings.source_code, "https://github.com/mCaptcha/showcase");
}

#[test]
fn ctx_new_endpoints_share_the_base_origin() {
    let s = settings("http://user:pw@localhost:7000/base/?q=1#f", "a key");
    let c = Ctx::new(&s).unwrap();
    assert!(share_origin(&c.verify_path, &s.captcha.mcaptcha_url));
    assert!(share_origin(&c.captcha_path, &s.captcha.mcaptcha_url));
    assert_eq!(c.verify_path(), "http://user:pw@localhost:7000/api/v1/pow/siteverify?q=1#f");
    assert_eq!(c.widget_path(), "http://user:pw@localhost:7000/widget?sitekey=a%20key#f");
}

#[test]
fn get_creds_switches_every_filter_on() {
    let creds = Ctx::get_creds();
    assert_eq!(creds.username("Realaravinth"), Ok("realaravinth".to_string()));
    assert_eq!(creds.username("punda"), Err(CredsError::ProfainityError));
    assert_eq!(creds.username("zlib"), Err(CredsError::BlacklistError));
    assert_eq!(creds.username("@test"), Err(CredsError::UsernameCaseMappedError));
}

#[test]
fn get_creds_uses_the_default_password_policy() {
    let creds = Ctx::get_creds();
    assert_eq!(creds.password("short"), Err(CredsError::PasswordTooShort));
    assert_eq!(creds.password(&"x".repeat(7)), Err(CredsError::PasswordTooShort));
    assert!(creds.password(&"x".repeat(8)).is_ok());
    assert!(creds.password(&"x".repeat(64)).is_ok());
    assert_eq!(creds.password(&"x".repeat(65)), Err(CredsError::PasswordTooLong));
}

#[test]
fn get_creds_salts_with_thirty_two_bytes() {
    let hash = Ctx::get_creds().password("ironmansucks").unwrap();
    let fields: Vec<&str> = hash.split('$').collect();
    let salt = fields[fields.len() - 2];
    assert_eq!(salt.len(), 43);
}

#[test]
fn get_creds_gives_the_same_configuration_each_time() {
    let first = Ctx::get_creds();
    let second = Ctx::get_creds();
    for name in ["Realaravinth", "punda", "zlib", "@test", "plain"] {
        assert_eq!(first.username(name), second.username(name));
    }
    for password in ["", "1234567", "12345678", &"y".repeat(64), &"y".repeat(65)] {
        assert_eq!(first.password(password).is_ok(), second.password(password).is_ok());
    }
    let hash = first.password("ironmansucks").unwrap();
    assert_eq!(argon2_creds::Config::verify(&hash, "ironmansucks"), Ok(true));
}

#[test]
fn waits_for_creds_unless_fast_start() {
    assert!(Ctx::waits_for_creds(false));
    assert!(!Ctx::waits_for_creds(true));
}

#[test]
fn from_ctx_copies_key_and_secret() {
    let c = ctx();
    let p = CaptchaVerfiyPayload::from_ctx(&c, "the-token");
    assert_eq!(p.token, "the-token");
    assert_eq!(p.key, "site-key");
    assert_eq!(p.secret, "account-secret");
}

#[test]
fn payload_fields_are_token_key_secret() {
    let c = ctx();
    let p = CaptchaVerfiyPayload::from_ctx(&c, "the-token");
    assert_eq!(
        p.fields(),
        vec![("token", "the-token"), ("key", "site-key"), ("secret", "account-secret")]
    );
}

#[test]
fn verify_token_addresses_the_verify_endpoint() {
    let c = ctx();
    let v = c.verify_token("tok");
    assert_eq!(v.endpoint, "https://demo.mcaptcha.org/api/v1/pow/siteverify");
    assert_eq!(v.payload.token, "tok");
    assert_eq!(v.payload.key, "site-key");
    assert_eq!(v.payload.secret, "account-secret");
}

#[test]
fn verify_token_passes_any_token_on() {
    let c = ctx();
    for token in ["", " ", "a\nb", "\u{1f600}", "{\"valid\":true}"] {
        assert_eq!(c.verify_token(token).payload.token, token);
    }
}

#[test]
fn verify_returns_true_when_the_service_says_valid() {
    let c = ctx();
    for token in ["", "GOOD", "anything at all", "\u{0}"] {
        assert_eq!(c.verify_token(token).complete(&answered(200, true)), Ok(true));
    }
}

#[test]
fn verify_returns_false_when_the_service_says_invalid() {
    let c = ctx();
    for token in ["", "GOOD", "BAD"] {
        assert_eq!(c.verify_token(token).complete(&answered(200, false)), Ok(false));
    }
}

#[test]
fn verify_accepts_every_status_of_success() {
    let v = ctx().verify_token("t");
    assert_eq!(v.complete(&answered(200, true)), Ok(true));
    assert_eq!(v.complete(&answered(201, false)), Ok(false));
    assert_eq!(v.complete(&answered(299, true)), Ok(true));
}

#[test]
fn verify_reports_a_status_of_failure() {
    let v = ctx().verify_token("t");
    assert_eq!(v.complete(&answered(199, true)), Err(VerifyError::Status(199)));
    assert_eq!(v.complete(&answered(300, true)), Err(VerifyError::Status(300)));
    assert_eq!(v.complete(&answered(404, true)), Err(VerifyError::Status(404)));
    assert_eq!(v.complete(&answered(500, false)), Err(VerifyError::Status(500)));
    assert_eq!(
        v.complete(&ServiceReply::Responded { status: 503, body: None }),
        Err(VerifyError::Status(503))
    );
    assert_eq!(v.complete(&answered(0, true)), Err(VerifyError::Status(0)));
    assert_eq!(v.complete(&answered(u16::MAX, true)), Err(VerifyError::Status(u16::MAX)));
}

#[test]
fn verify_reports_an_unreadable_body() {
    let v = ctx().verify_token("t");
    assert_eq!(
        v.complete(&ServiceReply::Responded { status: 200, body: None }),
        Err(VerifyError::Body)
    );
}

#[test]
fn verify_reports_an_unreachable_service() {
    let v = ctx().verify_token("t");
    assert_eq!(v.complete(&ServiceReply::Unreachable), Err(VerifyError::Unreachable));
}

#[test]
fn verifications_do_not_mix() {
    let c = ctx();
    let tokens: Vec<String> = (0..64).map(|i| format!("token-{}", i)).collect();
    let pending: Vec<_> = tokens.iter().map(|t| c.verify_token(t)).collect();
    for (i, v) in pending.iter().enumerate().rev() {
        let valid = i % 3 == 0;
        assert_eq!(v.payload.token, tokens[i]);
        assert_eq!(v.payload.key, "site-key");
        assert_eq!(v.complete(&answered(200, valid)), Ok(valid));
    }
}

#[test]
fn protected_redirects_an_admitted_visitor() {
    let r = protected(&Ok(true));
    assert_eq!(r.status, 302);
    assert_eq!(r.location, Some("/success".to_string()));
    assert_eq!(r.body, "");
}

#[test]
fn protected_rejects_an_invalid_token() {
    let r = protected(&Ok(false));
    assert_eq!(r.status, 400);
    assert_eq!(r.location, None);
    assert_eq!(r.body, "Invalid Captcha");
}

#[test]
fn protected_reports_an_unavailable_service() {
    for e in [VerifyError::Unreachable, VerifyError::Status(500), VerifyError::Body] {
        let r = protected(&Err(e));
        assert_eq!(r.status, 502);
        assert_eq!(r.location, None);
        assert_eq!(r.body, "Captcha verification unavailable");
    }
}

#[test]
fn form_submission_end_to_end() {
    let c = ctx();
    let form = RegisterProtected {
        name: "A".to_string(),
        comment: "B".to_string(),
        mcaptcha__token: "GOOD".to_string(),
    };
    let pending = c.verify_token(&form.mcaptcha__token);
    assert_eq!(pending.payload.token, "GOOD");

    let admitted = protected(&pending.complete(&answered(200, true)));
    assert_eq!(admitted.status, 302);
    assert_eq!(admitted.location, Some(Routes::new().success.to_string()));

    let rejected = protected(&pending.complete(&answered(200, false)));
    assert_eq!(rejected.status, 400);
    assert_eq!(rejected.body, "Invalid Captcha");
}

#[test]
fn form_state_walks_to_an_end() {
    let sent = FormState::Received.step(&FormEvent::Sent);
    assert_eq!(sent, Some(FormState::Verifying));
    assert_eq!(
        FormState::Verifying.step(&FormEvent::Settled(Ok(true))),
        Some(FormState::Admitted)
    );
    assert_eq!(
        FormState::Verifying.step(&FormEvent::Settled(Ok(false))),
        Some(FormState::Rejected)
    );
    assert_eq!(
        FormState::Verifying.step(&FormEvent::Settled(Err(VerifyError::Body))),
        Some(FormState::Unavailable)
    );
}

#[test]
fn form_state_refuses_events_out_of_place() {
    assert_eq!(FormState::Received.step(&FormEvent::Settled(Ok(true))), None);
    assert_eq!(FormState::Verifying.step(&FormEvent::Sent), None);
    for end in [FormState::Admitted, FormState::Rejected, FormState::Unavailable] {
        assert_eq!(end.step(&FormEvent::Sent), None);
        assert_eq!(end.step(&FormEvent::Settled(Ok(true))), None);
        assert_eq!(end.step(&FormEvent::Settled(Err(VerifyError::Unreachable))), None);
    }
}

#[test]
fn form_state_replies_only_at_an_end() {
    assert!(FormState::Received.reply().is_none());
    assert!(FormState::Verifying.reply().is_none());
    assert_eq!(FormState::Admitted.reply().unwrap().status, 302);
    assert_eq!(FormState::Rejected.reply().unwrap().status, 400);
    assert_eq!(FormState::Rejected.reply().unwrap().body, "Invalid Captcha");
    assert_eq!(FormState::Unavailable.reply().unwrap().status, 502);
}

#[test]
fn verify_resp_default_is_invalid() {
    assert_eq!(CaptchaVerifyResp::default(), CaptchaVerifyResp { valid: false });
}

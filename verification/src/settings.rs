//! The gateway's settings, and the rules by which they are assembled from a
//! configuration file and the environment.

use crate::text::append_decimal;
use crate::text::decimal;
use crate::text::text_eq;
use crate::weburl::parsed_text;
use crate::weburl::url_text;
use url::Url;
use vstd::prelude::*;
use vstd::string::StringExecFns;

verus! {

/// Where the gateway listens.
#[derive(Debug)]
pub struct Server {
    pub port: u32,
    pub domain: String,
    pub ip: String,
}

/// How to reach the captcha service, and as whom. The type has no `Debug`,
/// so that the secret is not printed by accident.
pub struct Captcha {
    /// Public identifier of this site at the service.
    pub sitekey: String,
    /// Base URL of the service.
    pub mcaptcha_url: Url,
    /// Secret that authenticates the gateway to the service.
    pub account_secret: String,
}

/// The validated settings of the gateway.
pub struct Settings {
    pub debug: bool,
    pub server: Server,
    pub captcha: Captcha,
    pub source_code: String,
}

/// The settings as the configuration sources give them, with both URLs
/// still unparsed.
pub struct RawSettings {
    pub debug: bool,
    pub server: Server,
    pub sitekey: String,
    pub mcaptcha_url: String,
    pub account_secret: String,
    pub source_code: String,
}

/// Why settings were refused.
#[derive(Clone, Copy, Debug, PartialEq, Eq, Structural)]
pub enum SettingsError {
    /// The address of the source code is not a URL.
    SourceCode,
    /// The base URL of the captcha service is not a URL.
    CaptchaUrl,
}

impl Clone for Server {
    fn clone(&self) -> (r: Self)
        ensures
            r == *self,
    {
        Server { port: self.port, domain: self.domain.clone(), ip: self.ip.clone() }
    }
}

impl Clone for Captcha {
    fn clone(&self) -> (r: Self)
        ensures
            r == *self,
    {
        Captcha {
            sitekey: self.sitekey.clone(),
            mcaptcha_url: self.mcaptcha_url.clone(),
            account_secret: self.account_secret.clone(),
        }
    }
}

impl Clone for Settings {
    fn clone(&self) -> (r: Self)
        ensures
            r == *self,
    {
        Settings {
            debug: self.debug,
            server: self.server.clone(),
            captcha: self.captcha.clone(),
            source_code: self.source_code.clone(),
        }
    }
}

impl Server {
    /// The address to bind to: the IP address, a colon and the port in
    /// decimal.
    pub fn get_ip(&self) -> (r: String)
        ensures
            r@ == self.ip@ + seq![':'] + decimal(self.port as nat),
    {
        let mut r = self.ip.clone();
        r.append(":");
        proof {
            reveal_strlit(":");
            assert(":"@ =~= seq![':']);
        }
        append_decimal(&mut r, self.port);
        r
    }
}

/// Tells whether `text` can be parsed as a URL.
pub fn is_url(text: &str) -> (r: bool)
    ensures
        r == parsed_text(text@) is Some,
{
    Url::parse(text).is_ok()
}

/// Parses an address that the settings must hold as a URL, such as the
/// address of the source code. Startup does not go on with an address
/// that is no URL, so the caller has to know that it is one: by
/// [`is_url`], or by a parse of its own.
pub fn check_url(source_code: &str) -> (u: Url)
    requires
        parsed_text(source_code@) is Some,
    ensures
        parsed_text(source_code@) == Some(url_text(u)),
{
    Url::parse(source_code).unwrap()
}

/// The configuration file in the working directory.
pub open spec fn current_dir_config() -> Seq<char> {
    "./config/config.toml"@
}

/// The system-wide configuration file.
pub open spec fn etc_config() -> Seq<char> {
    "/etc/mcaptcha-showcase/config.toml"@
}

/// The two places in which a configuration file is looked for when the
/// environment names none: the working directory first, then the system.
pub fn config_candidates() -> (r: (&'static str, &'static str))
    ensures
        r.0@ == current_dir_config(),
        r.1@ == etc_config(),
{
    ("./config/config.toml", "/etc/mcaptcha-showcase/config.toml")
}

/// The configuration file to read, by precedence: the one that the
/// environment names, the one in the working directory if it exists, the
/// system-wide one if it exists, or none.
pub open spec fn chosen_config(
    from_env: Option<Seq<char>>,
    in_current_dir: bool,
    in_etc: bool,
) -> Option<Seq<char>> {
    if from_env is Some {
        from_env
    } else if in_current_dir {
        Some(current_dir_config())
    } else if in_etc {
        Some(etc_config())
    } else {
        None
    }
}

/// Chooses the configuration file to read. `from_env` is the path that the
/// environment names, if it names one; the flags tell whether the file in
/// the working directory and the system-wide file exist.
pub fn config_file(from_env: Option<String>, in_current_dir: bool, in_etc: bool) -> (r: Option<
    String,
>)
    ensures
        (match r {
            Some(p) => Some(p@),
            None => None,
        }) == chosen_config(
            match from_env {
                Some(p) => Some(p@),
                None => None,
            },
            in_current_dir,
            in_etc,
        ),
{
    match from_env {
        Some(p) => Some(p),
        None => {
            let (current_dir, etc) = config_candidates();
            if in_current_dir {
                Some(String::from_str(current_dir))
            } else if in_etc {
                Some(String::from_str(etc))
            } else {
                None
            }
        },
    }
}

/// The settings key that an environment variable sets directly, over what
/// the configuration file and the prefixed environment gave.
pub open spec fn override_key_of(var: Seq<char>) -> Option<Seq<char>> {
    if var == "MCAPTCHA__CAPTCHA__SITEKEY"@ {
        Some("captcha.sitekey"@)
    } else if var == "MCAPTCHA__CAPTCHA__MCAPTCHA_URL"@ {
        Some("captcha.mcaptcha_url"@)
    } else if var == "MCAPTCHA__CAPTCHA__ACCOUNT__SECRET"@ {
        Some("captcha.account_secret"@)
    } else if var == "PORT"@ {
        Some("server.port"@)
    } else {
        None
    }
}

/// The settings key that the environment variable `var` sets directly, if
/// it sets one.
pub fn override_key(var: &str) -> (r: Option<&'static str>)
    ensures
        (match r {
            Some(k) => Some(k@),
            None => None,
        }) == override_key_of(var@),
{
    if text_eq(var, "MCAPTCHA__CAPTCHA__SITEKEY") {
        Some("captcha.sitekey")
    } else if text_eq(var, "MCAPTCHA__CAPTCHA__MCAPTCHA_URL") {
        Some("captcha.mcaptcha_url")
    } else if text_eq(var, "MCAPTCHA__CAPTCHA__ACCOUNT__SECRET") {
        Some("captcha.account_secret")
    } else if text_eq(var, "PORT") {
        Some("server.port")
    } else {
        None
    }
}

/// The environment variables that set a key directly, in the order in
/// which they are applied.
pub fn override_vars() -> (r: Vec<&'static str>)
    ensures
        r@.len() == 4,
        r@[0]@ == "MCAPTCHA__CAPTCHA__SITEKEY"@,
        r@[1]@ == "MCAPTCHA__CAPTCHA__MCAPTCHA_URL"@,
        r@[2]@ == "MCAPTCHA__CAPTCHA__ACCOUNT__SECRET"@,
        r@[3]@ == "PORT"@,
        forall|i: int| 0 <= i < 4 ==> override_key_of(#[trigger] r@[i]@) is Some,
{
    vec![
        "MCAPTCHA__CAPTCHA__SITEKEY",
        "MCAPTCHA__CAPTCHA__MCAPTCHA_URL",
        "MCAPTCHA__CAPTCHA__ACCOUNT__SECRET",
        "PORT",
    ]
}

/// The message that reports `detail` as the reason for which the
/// configuration could not be read.
pub fn config_error_message(detail: &str) -> (r: String)
    ensures
        r@ == "\n\nError: "@ + detail@
            + ". If it says missing fields, then please refer to https://github.com/mCaptcha/mcaptcha#configuration to learn more about how mcaptcha reads configuration\n\n"@,
{
    let mut r = String::from_str("\n\nError: ");
    r.append(detail);
    r.append(
        ". If it says missing fields, then please refer to https://github.com/mCaptcha/mcaptcha#configuration to learn more about how mcaptcha reads configuration\n\n",
    );
    r
}

impl Settings {
    /// Validates raw settings. The address of the source code is tested
    /// first and then the base URL of the captcha service, which is kept
    /// as the URL that it is parsed to; every other value is taken as it
    /// is.
    pub fn new(raw: RawSettings) -> (r: Result<Settings, SettingsError>)
        ensures
            match r {
                Ok(s) => {
                    &&& parsed_text(raw.source_code@) is Some
                    &&& parsed_text(raw.mcaptcha_url@) == Some(url_text(s.captcha.mcaptcha_url))
                    &&& s.debug == raw.debug
                    &&& s.server == raw.server
                    &&& s.captcha.sitekey == raw.sitekey
                    &&& s.captcha.account_secret == raw.account_secret
                    &&& s.source_code == raw.source_code
                },
                Err(SettingsError::SourceCode) => parsed_text(raw.source_code@) is None,
                Err(SettingsError::CaptchaUrl) => {
                    &&& parsed_text(raw.source_code@) is Some
                    &&& parsed_text(raw.mcaptcha_url@) is None
                },
            },
    {
        if !is_url(raw.source_code.as_str()) {
            return Err(SettingsError::SourceCode);
        }
        check_url(raw.source_code.as_str());
        if !is_url(raw.mcaptcha_url.as_str()) {
            return Err(SettingsError::CaptchaUrl);
        }
        let mcaptcha_url = check_url(raw.mcaptcha_url.as_str());
        Ok(
            Settings {
                debug: raw.debug,
                server: raw.server,
                captcha: Captcha {
                    sitekey: raw.sitekey,
                    mcaptcha_url,
                    account_secret: raw.account_secret,
                },
                source_code: raw.source_code,
            },
        )
    }
}

} // verus!

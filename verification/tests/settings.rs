use mcaptcha_showcase::settings::check_url;
use mcaptcha_showcase::settings::is_url;
use mcaptcha_showcase::settings::config_error_message;
use mcaptcha_showcase::settings::config_file;
use mcaptcha_showcase::settings::override_key;
use mcaptcha_showcase::settings::override_vars;
use mcaptcha_showcase::settings::RawSettings;
use mcaptcha_showcase::settings::Server;
use mcaptcha_showcase::settings::Settings;
use mcaptcha_showcase::settings::SettingsError;

fn server(ip: &str, port: u32) -> Server {
    Server { port, domain: "localhost".to_string(), ip: ip.to_string() }
}

fn raw(mcaptcha_url: &str, source_code: &str) -> RawSettings {
    RawSettings {
        debug: true,
        server: server("0.0.0.0", 7000),
        sitekey: "site-key".to_string(),
        mcaptcha_url: mcaptcha_url.to_string(),
        account_secret: "secret".to_string(),
        source_code: source_code.to_string(),
    }
}

#[test]
fn get_ip_joins_ip_and_port() {
    assert_eq!(server("127.0.0.1", 7000).get_ip(), "127.0.0.1:7000");
    assert_eq!(server("0.0.0.0", 80).get_ip(), "0.0.0.0:80");
}

#[test]
fn get_ip_port_edges() {
    assert_eq!(server("::1", 0).get_ip(), "::1:0");
    assert_eq!(server("h", 9).get_ip(), "h:9");
    assert_eq!(server("h", 10).get_ip(), "h:10");
    assert_eq!(server("h", 1_000_000).get_ip(), "h:1000000");
    assert_eq!(server("", u32::MAX).get_ip(), ":4294967295");
}

#[test]
fn get_ip_matches_std_formatting() {
    for port in [1u32, 19, 100, 101, 443, 8080, 65535, 65536, 99_999, 4_000_000_000] {
        assert_eq!(server("10.0.0.1", port).get_ip(), format!("10.0.0.1:{}", port));
    }
}

#[test]
fn server_clone_keeps_fields() {
    let s = server("127.0.0.1", 7000);
    let c = s.clone();
    assert_eq!(c.port, 7000);
    assert_eq!(c.ip, "127.0.0.1");
    assert_eq!(c.domain, "localhost");
}

#[test]
fn is_url_accepts_urls_only() {
    assert!(is_url("https://github.com/mCaptcha/showcase"));
    assert!(is_url("mailto:someone@example.org"));
    assert!(!is_url("not a url"));
    assert!(!is_url(""));
    assert!(!is_url("/relative/path"));
    assert!(!is_url("https://"));
}

#[test]
fn is_url_refuses_an_address_without_a_scheme() {
    assert!(!is_url("github.com/mCaptcha/showcase"));
    assert!(is_url("https://github.com/mCaptcha/showcase"));
}

#[test]
fn check_url_gives_the_parsed_url() {
    let u = check_url("https://github.com/mCaptcha/showcase");
    assert_eq!(u.as_str(), "https://github.com/mCaptcha/showcase");
    let u = check_url("HTTPS://Example.ORG:443/a/./b");
    assert_eq!(u.as_str(), "https://example.org/a/b");
    assert_eq!(u, url::Url::parse("HTTPS://Example.ORG:443/a/./b").unwrap());
}

#[test]
fn settings_new_rejects_a_source_code_without_a_scheme() {
    let r = Settings::new(raw("https://demo.mcaptcha.org", "github.com/mCaptcha/showcase"));
    assert_eq!(r.err(), Some(SettingsError::SourceCode));
}

#[test]
fn settings_new_accepts_valid_urls() {
    let s = Settings::new(raw("https://demo.mcaptcha.org", "https://github.com/mCaptcha/showcase"))
        .unwrap();
    assert!(s.debug);
    assert_eq!(s.server.port, 7000);
    assert_eq!(s.server.ip, "0.0.0.0");
    assert_eq!(s.server.domain, "localhost");
    assert_eq!(s.captcha.sitekey, "site-key");
    assert_eq!(s.captcha.account_secret, "secret");
    assert_eq!(s.captcha.mcaptcha_url.as_str(), "https://demo.mcaptcha.org/");
    assert_eq!(s.source_code, "https://github.com/mCaptcha/showcase");
}

#[test]
fn settings_new_stores_the_parsed_url() {
    let s = Settings::new(raw("HTTP://Example.COM:80/a/../b", "https://example.org")).unwrap();
    let parsed = url::Url::parse("HTTP://Example.COM:80/a/../b").unwrap();
    assert_eq!(s.captcha.mcaptcha_url, parsed);
    assert_eq!(s.captcha.mcaptcha_url.as_str(), "http://example.com/b");
}

#[test]
fn settings_new_rejects_bad_source_code() {
    let r = Settings::new(raw("https://demo.mcaptcha.org", "no url here"));
    assert_eq!(r.err(), Some(SettingsError::SourceCode));
}

#[test]
fn settings_new_rejects_bad_captcha_url() {
    let r = Settings::new(raw("demo.mcaptcha.org", "https://example.org"));
    assert_eq!(r.err(), Some(SettingsError::CaptchaUrl));
}

#[test]
fn settings_new_reports_source_code_first() {
    let r = Settings::new(raw("also bad", "bad"));
    assert_eq!(r.err(), Some(SettingsError::SourceCode));
}

#[test]
fn settings_clone_keeps_everything() {
    let s = Settings::new(raw("https://demo.mcaptcha.org/x?y=1", "https://example.org")).unwrap();
    let c = s.clone();
    assert_eq!(c.debug, s.debug);
    assert_eq!(c.server.get_ip(), s.server.get_ip());
    assert_eq!(c.captcha.sitekey, s.captcha.sitekey);
    assert_eq!(c.captcha.mcaptcha_url, s.captcha.mcaptcha_url);
    assert_eq!(c.captcha.account_secret, s.captcha.account_secret);
    assert_eq!(c.source_code, s.source_code);
}

#[test]
fn config_file_prefers_the_environment() {
    let named = Some("/tmp/custom.toml".to_string());
    assert_eq!(config_file(named.clone(), true, true), named);
    assert_eq!(config_file(named.clone(), false, false), named);
}

#[test]
fn config_file_falls_back_in_order() {
    assert_eq!(config_file(None, true, true), Some("./config/config.toml".to_string()));
    assert_eq!(config_file(None, true, false), Some("./config/config.toml".to_string()));
    assert_eq!(
        config_file(None, false, true),
        Some("/etc/mcaptcha-showcase/config.toml".to_string())
    );
    assert_eq!(config_file(None, false, false), None);
}

#[test]
fn override_key_maps_the_four_variables() {
    assert_eq!(override_key("MCAPTCHA__CAPTCHA__SITEKEY"), Some("captcha.sitekey"));
    assert_eq!(override_key("MCAPTCHA__CAPTCHA__MCAPTCHA_URL"), Some("captcha.mcaptcha_url"));
    assert_eq!(
        override_key("MCAPTCHA__CAPTCHA__ACCOUNT__SECRET"),
        Some("captcha.account_secret")
    );
    assert_eq!(override_key("PORT"), Some("server.port"));
}

#[test]
fn override_key_knows_no_other_variable() {
    assert_eq!(override_key(""), None);
    assert_eq!(override_key("port"), None);
    assert_eq!(override_key("MCAPTCHA__CAPTCHA__ACCOUNT_SECRET"), None);
    assert_eq!(override_key("MCAPTCHA__SERVER__PORT"), None);
}

#[test]
fn override_vars_lists_each_variable_once() {
    let vars = override_vars();
    assert_eq!(
        vars,
        vec![
            "MCAPTCHA__CAPTCHA__SITEKEY",
            "MCAPTCHA__CAPTCHA__MCAPTCHA_URL",
            "MCAPTCHA__CAPTCHA__ACCOUNT__SECRET",
            "PORT",
        ]
    );
    for var in vars {
        assert!(override_key(var).is_some());
    }
}

#[test]
fn config_error_message_wraps_the_detail() {
    assert_eq!(
        config_error_message("missing field `captcha`"),
        "\n\nError: missing field `captcha`. If it says missing fields, then please refer to https://github.com/mCaptcha/mcaptcha#configuration to learn more about how mcaptcha reads configuration\n\n"
    );
    assert!(config_error_message("").starts_with("\n\nError: . If it says"));
}

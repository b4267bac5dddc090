//! What the gateway relies on from the `argon2_creds` crate.
//!
//! Nothing in this file is proved: the contracts restate what the crate's
//! generated builder does.

use argon2_creds::Config;
use argon2_creds::ConfigBuilder;
use argon2_creds::config::ConfigBuilderError;
use argon2_creds::PasswordPolicy;
use vstd::prelude::*;

verus! {

/// `argon2_creds::Config`, carried through as an opaque value.
#[verifier::external_type_specification]
#[verifier::external_body]
pub struct ExConfig(argon2_creds::Config);

/// `argon2_creds::config::ConfigBuilderError`, carried through as an opaque value.
#[verifier::external_type_specification]
#[verifier::external_body]
pub struct ExConfigBuilderError(argon2_creds::config::ConfigBuilderError);

/// The filters that a credential configuration switches on: the username
/// case mapping, the profanity filter and the blacklist, in this order.
pub uninterp spec fn creds_filters(c: Config) -> (bool, bool, bool);

/// The limits of the password policy in a credential configuration: the
/// least and the greatest length of a password, and the length of the salt
/// that a password is hashed with, in this order.
pub uninterp spec fn creds_password_limits(c: Config) -> (usize, usize, usize);

/// `argon2_creds::ConfigBuilder::build`, after the builder's setters for
/// the three filters and for the default password policy. Every field is
/// set, so the build succeeds. The configuration holds the filters as
/// given, and the limits of the default policy: passwords of 8 to 64
/// bytes and a salt of 32.
#[verifier::external_body]
pub(crate) fn build_config(username_case_mapped: bool, profanity: bool, blacklist: bool) -> (r:
    Result<Config, ConfigBuilderError>)
    ensures
        r is Ok,
        r matches Ok(c) ==> creds_filters(c) == (username_case_mapped, profanity, blacklist),
        r matches Ok(c) ==> creds_password_limits(c) == (8usize, 64usize, 32usize),
{
    ConfigBuilder::default()
        .username_case_mapped(username_case_mapped)
        .profanity(profanity)
        .blacklist(blacklist)
        .password_policy(PasswordPolicy::default())
        .build()
}

} // verus!

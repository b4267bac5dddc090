//! Gateway that admits a form submission only after a remote captcha
//! service has confirmed the visitor's token.

pub mod creds;
pub mod ctx;
pub mod endpoints;
pub mod escape;
pub mod routes;
pub mod settings;
pub mod text;
pub mod weburl;

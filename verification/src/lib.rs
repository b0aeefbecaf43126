//! Check whether an email address exists without sending any email: the
//! decision logic (syntax, normalization, MX records, SMTP reply parsing,
//! provider detection, verification-method selection, the Yahoo sign-up form,
//! Gravatar and breach lookups, throttling, and the result of a check) with
//! its contracts.

pub mod text;
pub mod normalize;
pub mod smtp_error;
pub mod parser;
pub mod providers;
pub mod input_output;
pub mod verif_method;
pub mod rules;
pub mod smtp;
pub mod smtp_session;
pub mod microsoft365;
pub mod sentry;
pub mod email_input;
pub mod config;
pub mod worker_config;
pub mod throttle;
pub mod telnet;
pub mod with_lettre;
pub mod outside;
pub mod syntax;
pub mod similar_provider;
pub mod misc;
pub mod gravatar;
pub mod haveibeenpwned;
pub mod yahoo;
pub mod headless;
pub mod gmail;
pub mod mx;
pub mod check;
pub mod simple_smtp;
pub mod http;
pub mod email_exists;

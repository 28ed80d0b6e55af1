//! Monitor configuration: raw key/value material from the two configuration
//! sections is turned into a validated `Config`, applying the documented
//! defaults and rejecting invalid numeric fields.

use vstd::prelude::*;
use vstd::string::StringExecFns;

use crate::text::{parse_u16, parse_u16_spec, parse_u64, parse_u64_spec};

verus! {

/// The raw `smtp` section: each key's value, where present.
pub struct RawSmtp {
    pub server: Option<String>,
    pub port: Option<String>,
    pub username: Option<String>,
    pub password: Option<String>,
}

/// The raw `email` section: each key's value, where present.
pub struct RawEmail {
    pub recipient: Option<String>,
    pub subject: Option<String>,
    pub body_template: Option<String>,
    pub interval_seconds: Option<String>,
}

/// The validated configuration, immutable after startup.
pub struct Config {
    pub smtp_server: String,
    pub smtp_port: u16,
    pub smtp_username: String,
    pub smtp_password: String,
    pub recipient: String,
    pub subject: String,
    pub body_template: String,
    pub interval_seconds: u64,
}

/// The mathematical content of a `Config`.
pub struct ConfigV {
    pub smtp_server: Seq<char>,
    pub smtp_port: u16,
    pub smtp_username: Seq<char>,
    pub smtp_password: Seq<char>,
    pub recipient: Seq<char>,
    pub subject: Seq<char>,
    pub body_template: Seq<char>,
    pub interval_seconds: u64,
}

impl View for Config {
    type V = ConfigV;

    open spec fn view(&self) -> ConfigV {
        ConfigV {
            smtp_server: self.smtp_server@,
            smtp_port: self.smtp_port,
            smtp_username: self.smtp_username@,
            smtp_password: self.smtp_password@,
            recipient: self.recipient@,
            subject: self.subject@,
            body_template: self.body_template@,
            interval_seconds: self.interval_seconds,
        }
    }
}

/// A fatal startup error: the configuration is missing a section or holds an
/// invalid numeric field.
#[derive(Debug, Clone, Copy, PartialEq, Eq, Structural)]
pub enum ConfigError {
    MissingSmtpSection,
    MissingEmailSection,
    InvalidPort,
    InvalidInterval,
}

/// The default SMTP relay host.
pub open spec fn default_server() -> Seq<char> {
    "smtp.gmail.com"@
}

/// The default notification subject.
pub open spec fn default_subject() -> Seq<char> {
    "Ngrok Tunnel Changed"@
}

/// The default notification body template.
pub open spec fn default_template() -> Seq<char> {
    "The ngrok tunnel public URL has changed. New URL: {url}"@
}

/// The value of an optional raw field, or its default.
pub open spec fn or_view(o: Option<String>, d: Seq<char>) -> Seq<char> {
    match o {
        Some(s) => s@,
        None => d,
    }
}

/// What building the configuration yields: the first error in reading order,
/// or the validated values with defaults applied.
pub open spec fn build_config_result(smtp: Option<RawSmtp>, email: Option<RawEmail>) -> Result<
    ConfigV,
    ConfigError,
> {
    match smtp {
        None => Err(ConfigError::MissingSmtpSection),
        Some(s) => {
            let port = match s.port {
                None => Some(587u16),
                Some(p) => parse_u16_spec(p@),
            };
            match port {
                None => Err(ConfigError::InvalidPort),
                Some(pv) => match email {
                    None => Err(ConfigError::MissingEmailSection),
                    Some(e) => {
                        let interval = match e.interval_seconds {
                            None => Some(10u64),
                            Some(x) => parse_u64_spec(x@),
                        };
                        match interval {
                            None => Err(ConfigError::InvalidInterval),
                            Some(iv) => Ok(
                                ConfigV {
                                    smtp_server: or_view(s.server, default_server()),
                                    smtp_port: pv,
                                    smtp_username: or_view(s.username, ""@),
                                    smtp_password: or_view(s.password, ""@),
                                    recipient: or_view(e.recipient, ""@),
                                    subject: or_view(e.subject, default_subject()),
                                    body_template: or_view(e.body_template, default_template()),
                                    interval_seconds: iv,
                                },
                            ),
                        }
                    },
                },
            }
        },
    }
}

/// The raw value where present, else the given default text.
fn or_default(o: Option<String>, d: &str) -> (r: String)
    ensures
        r@ == or_view(o, d@),
{
    match o {
        Some(s) => s,
        None => String::from_str(d),
    }
}

/// Builds the validated configuration from the raw sections, applying the
/// documented defaults and reporting the first error in reading order.
pub fn build_config(smtp: Option<RawSmtp>, email: Option<RawEmail>) -> (r: Result<
    Config,
    ConfigError,
>)
    ensures
        match r {
            Ok(c) => build_config_result(smtp, email) == Ok::<ConfigV, ConfigError>(c@),
            Err(e) => build_config_result(smtp, email) == Err::<ConfigV, ConfigError>(e),
        },
{
    let s = match smtp {
        Some(s) => s,
        None => {
            return Err(ConfigError::MissingSmtpSection);
        },
    };
    let port: u16 = match &s.port {
        None => 587,
        Some(p) => match parse_u16(p.as_str()) {
            Some(v) => v,
            None => {
                return Err(ConfigError::InvalidPort);
            },
        },
    };
    let e = match email {
        Some(e) => e,
        None => {
            return Err(ConfigError::MissingEmailSection);
        },
    };
    let interval: u64 = match &e.interval_seconds {
        None => 10,
        Some(x) => match parse_u64(x.as_str()) {
            Some(v) => v,
            None => {
                return Err(ConfigError::InvalidInterval);
            },
        },
    };
    Ok(
        Config {
            smtp_server: or_default(s.server, "smtp.gmail.com"),
            smtp_port: port,
            smtp_username: or_default(s.username, ""),
            smtp_password: or_default(s.password, ""),
            recipient: or_default(e.recipient, ""),
            subject: or_default(e.subject, "Ngrok Tunnel Changed"),
            body_template: or_default(
                e.body_template,
                "The ngrok tunnel public URL has changed. New URL: {url}",
            ),
            interval_seconds: interval,
        },
    )
}

} // verus!

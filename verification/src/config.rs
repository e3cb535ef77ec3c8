//! Server configuration: environment first, then the configuration file,
//! then defaults.

use vstd::prelude::*;
use crate::decimal::{parse_unsigned, parse_unsigned_spec, push_u64, nat_str};
use crate::json::opt_str_view;
use crate::text::{str_eq, to_owned};

verus! {

pub const DEFAULT_PORT: u16 = 5188;

pub const DEFAULT_MICRO_URL: &'static str = "http://localhost:5173";

/// The server's settings.
pub struct AppConfig {
    pub port: u16,
    pub micro_url: String,
    pub secret: Option<String>,
    pub dev_mode: bool,
}

/// The environment variables, each when set to valid Unicode:
/// `VIBESQL_MAIL_PORT`, `VIBESQL_MAIL_MICRO_URL`, `VIBESQL_MAIL_SECRET`,
/// `VIBESQL_MAIL_DEV`.
pub struct EnvConfig {
    pub port: Option<String>,
    pub micro_url: Option<String>,
    pub secret: Option<String>,
    pub dev: Option<String>,
}

/// The entries of `server.toml`, each when present with the right type:
/// `port` (integer), `micro_url`, `secret_key` (strings), `dev_mode` (boolean).
pub struct FileConfig {
    pub port: Option<i64>,
    pub micro_url: Option<String>,
    pub secret_key: Option<String>,
    pub dev_mode: Option<bool>,
}

/// The port: the environment's when it is a valid `u16`, else the file's
/// (cut to 16 bits), else 5188.
pub open spec fn port_spec(env: Option<Seq<char>>, file: Option<i64>) -> u16 {
    match env {
        Some(v) if parse_unsigned_spec(v, u16::MAX as int) is Some => parse_unsigned_spec(
            v,
            u16::MAX as int,
        )->0 as u16,
        _ => match file {
            Some(p) => p as u16,
            None => DEFAULT_PORT,
        },
    }
}

/// Development mode: when the environment sets it, whether it is `true` or
/// `1`; else the file's; else off.
pub open spec fn dev_spec(env: Option<Seq<char>>, file: Option<bool>) -> bool {
    match env {
        Some(v) => v == "true"@ || v == "1"@,
        None => match file {
            Some(b) => b,
            None => false,
        },
    }
}

fn first_of(a: Option<String>, b: Option<String>) -> (r: Option<String>)
    ensures
        opt_str_view(r) == match a {
            Some(x) => Some(x@),
            None => opt_str_view(b),
        },
{
    match a {
        Some(x) => Some(x),
        None => b,
    }
}

impl AppConfig {
    /// The settings from the environment and the file (absent when it could
    /// not be read or parsed).
    pub fn resolve(env: EnvConfig, file: Option<FileConfig>) -> (r: AppConfig)
        ensures
            ({
                let (fp, fu, fs, fd) = match file {
                    Some(f) => (f.port, opt_str_view(f.micro_url), opt_str_view(f.secret_key), f.dev_mode),
                    None => (None, None, None, None),
                };
                &&& r.port == port_spec(opt_str_view(env.port), fp)
                &&& r.micro_url@ == match opt_str_view(env.micro_url) {
                    Some(u) => u,
                    None => match fu {
                        Some(u) => u,
                        None => DEFAULT_MICRO_URL@,
                    },
                }
                &&& opt_str_view(r.secret) == match opt_str_view(env.secret) {
                    Some(s) => Some(s),
                    None => fs,
                }
                &&& r.dev_mode == dev_spec(opt_str_view(env.dev), fd)
            }),
    {
        let (fp, fu, fs, fd) = match file {
            Some(f) => (f.port, f.micro_url, f.secret_key, f.dev_mode),
            None => (None, None, None, None),
        };
        let env_port = match &env.port {
            Some(v) => parse_unsigned(v.as_str(), 0xFFFF),
            None => None,
        };
        let port: u16 = match env_port {
            Some(p) => p as u16,
            None => match fp {
                Some(p) => #[verifier::truncate] (p as u16),
                None => DEFAULT_PORT,
            },
        };
        let micro_url = match first_of(env.micro_url, fu) {
            Some(u) => u,
            None => to_owned(DEFAULT_MICRO_URL),
        };
        let secret = first_of(env.secret, fs);
        let dev_mode = match &env.dev {
            Some(v) => str_eq(v.as_str(), "true") || str_eq(v.as_str(), "1"),
            None => match fd {
                Some(b) => b,
                None => false,
            },
        };
        AppConfig { port, micro_url, secret, dev_mode }
    }

    /// The address the server listens on: `127.0.0.1:<port>`.
    pub fn bind_addr(&self) -> (r: String)
        ensures
            r@ == "127.0.0.1:"@ + nat_str(self.port as nat),
    {
        let mut s = to_owned("127.0.0.1:");
        push_u64(&mut s, self.port as u64);
        s
    }
}

/// The home directory to keep settings in: `HOME`, else `USERPROFILE`, else
/// the current directory.
pub fn home_dir(home: Option<String>, user_profile: Option<String>) -> (r: String)
    ensures
        r@ == match (home, user_profile) {
            (Some(h), _) => h@,
            (None, Some(u)) => u@,
            (None, None) => "."@,
        },
{
    match home {
        Some(h) => h,
        None => match user_profile {
            Some(u) => u,
            None => to_owned("."),
        },
    }
}

/// The name of the settings directory under the home directory.
pub const CONFIG_DIR_NAME: &'static str = ".vibesql-mail";

/// The name of the configuration file in the settings directory.
pub const CONFIG_FILE_NAME: &'static str = "server.toml";

} // verus!

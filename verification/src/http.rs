//! The HTTP front end of the command-line tool: routing, and the check
//! settings built from a request body and the tool's defaults.

use vstd::prelude::*;

verus! {

/// The HTTP method of a request, as far as routing reads it.
#[derive(Debug, Clone, Copy, PartialEq, Eq, Structural)]
pub enum HttpMethod {
    Get,
    Post,
    Other,
}

/// Where a request goes.
#[derive(Debug, Clone, Copy, PartialEq, Eq, Structural)]
pub enum Route {
    /// `GET /`: instructions on how to use the server.
    Instructions,
    /// `POST /`: check the addresses of the body.
    Check,
    /// Anything else: 404 Not Found.
    NotFound,
}

/// Route a request by its method and path.
pub fn route(method: HttpMethod, path: &str) -> (r: Route)
    ensures
        r == (if path@ == "/"@ && method == HttpMethod::Get {
            Route::Instructions
        } else if path@ == "/"@ && method == HttpMethod::Post {
            Route::Check
        } else {
            Route::NotFound
        }),
{
    let is_root = crate::text::str_eq(path, "/");
    match method {
        HttpMethod::Get => if is_root {
            Route::Instructions
        } else {
            Route::NotFound
        },
        HttpMethod::Post => if is_root {
            Route::Check
        } else {
            Route::NotFound
        },
        HttpMethod::Other => Route::NotFound,
    }
}

/// The body of a `POST /` request.
#[derive(Debug, Clone, PartialEq, Eq)]
pub struct PostReqBody {
    pub from_email: Option<String>,
    pub hello_name: Option<String>,
    pub to_emails: Vec<String>,
    pub proxy_host: Option<String>,
    pub proxy_port: Option<u16>,
}

/// The body of an error answer.
#[derive(Debug, Clone, PartialEq, Eq)]
pub struct PostResError {
    pub error: String,
}

/// The settings of the command-line tool that a request falls back on.
#[derive(Debug, Clone, PartialEq, Eq)]
pub struct ServerDefaults {
    /// The email to use in the `MAIL FROM:` SMTP command.
    pub from_email: String,
    /// The name to use in the `EHLO:` SMTP command.
    pub hello_name: String,
    /// The SOCKS5 proxy host, if any.
    pub proxy_host: Option<String>,
    /// The SOCKS5 proxy port.
    pub proxy_port: u16,
}

/// What a `POST /` request asks to check, and how.
#[derive(Debug, Clone, PartialEq, Eq)]
pub struct CheckRequest {
    pub to_emails: Vec<String>,
    pub from_email: String,
    pub hello_name: String,
    /// The SOCKS5 proxy, host and port.
    pub proxy: Option<(String, u16)>,
}

/// The settings of a check: each setting of the body wins over the tool's
/// default; a proxy is used when either gives a host, with the body's port
/// or else the tool's.
pub fn check_request(body: PostReqBody, conf: &ServerDefaults) -> (r: CheckRequest)
    ensures
        r.to_emails == body.to_emails,
        r.from_email == (match body.from_email {
            Some(f) => f,
            None => conf.from_email,
        }),
        r.hello_name == (match body.hello_name {
            Some(h) => h,
            None => conf.hello_name,
        }),
        r.proxy == (match (body.proxy_host, conf.proxy_host) {
            (Some(h), _) => Some(
                (
                    h,
                    match body.proxy_port {
                        Some(p) => p,
                        None => conf.proxy_port,
                    },
                ),
            ),
            (None, Some(h)) => Some(
                (
                    h,
                    match body.proxy_port {
                        Some(p) => p,
                        None => conf.proxy_port,
                    },
                ),
            ),
            (None, None) => None::<(String, u16)>,
        }),
{
    let from_email = match body.from_email {
        Some(f) => f,
        None => conf.from_email.clone(),
    };
    let hello_name = match body.hello_name {
        Some(h) => h,
        None => conf.hello_name.clone(),
    };
    let port = match body.proxy_port {
        Some(p) => p,
        None => conf.proxy_port,
    };
    let proxy = match body.proxy_host {
        Some(h) => Some((h, port)),
        None => match &conf.proxy_host {
            Some(h) => Some((h.clone(), port)),
            None => None,
        },
    };
    CheckRequest { to_emails: body.to_emails, from_email, hello_name, proxy }
}

/// The addresses of a serverless request: `to_email` is required, and
/// `from_email` defaults to `user@example.org`. The error is the message
/// answered when `to_email` is missing.
pub fn serverless_request(to_email: Option<String>, from_email: Option<String>) -> (r: Result<
    (String, String),
    String,
>)
    ensures
        match to_email {
            Some(t) => r matches Ok((t2, f)) && t2 == t && f@ == (match from_email {
                Some(f0) => f0@,
                None => "user@example.org"@,
            }),
            None => r matches Err(m) && m@ == "`to_email` is a required query param"@,
        },
{
    match to_email {
        Some(t) => {
            let f = match from_email {
                Some(f) => f,
                None => String::from_str("user@example.org"),
            };
            Ok((t, f))
        },
        None => Err(String::from_str("`to_email` is a required query param")),
    }
}

} // verus!

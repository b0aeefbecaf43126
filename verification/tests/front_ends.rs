use check_if_email_exists::email_exists::{
    any_success, domain_of_address, mx_lookup_failure, EmailExistsError, MxLookupError,
};
use check_if_email_exists::http::{
    check_request, route, serverless_request, CheckRequest, HttpMethod, PostReqBody, Route,
    ServerDefaults,
};

fn defaults() -> ServerDefaults {
    ServerDefaults {
        from_email: "user@example.org".to_string(),
        hello_name: "localhost".to_string(),
        proxy_host: None,
        proxy_port: 1080,
    }
}

#[test]
fn routes() {
    assert_eq!(route(HttpMethod::Get, "/"), Route::Instructions);
    assert_eq!(route(HttpMethod::Post, "/"), Route::Check);
    assert_eq!(route(HttpMethod::Post, "/check"), Route::NotFound);
    assert_eq!(route(HttpMethod::Other, "/"), Route::NotFound);
}

#[test]
fn body_settings_win_over_defaults() {
    let body = PostReqBody {
        from_email: Some("me@a.com".to_string()),
        hello_name: None,
        to_emails: vec!["x@y.com".to_string()],
        proxy_host: Some("proxy".to_string()),
        proxy_port: None,
    };
    assert_eq!(
        check_request(body, &defaults()),
        CheckRequest {
            to_emails: vec!["x@y.com".to_string()],
            from_email: "me@a.com".to_string(),
            hello_name: "localhost".to_string(),
            proxy: Some(("proxy".to_string(), 1080)),
        }
    );
    let body = PostReqBody {
        from_email: None,
        hello_name: Some("h".to_string()),
        to_emails: vec![],
        proxy_host: None,
        proxy_port: Some(9050),
    };
    let r = check_request(body, &defaults());
    assert_eq!(r.from_email, "user@example.org");
    assert_eq!(r.hello_name, "h");
    assert_eq!(r.proxy, None);
    let mut conf = defaults();
    conf.proxy_host = Some("conf-proxy".to_string());
    let body = PostReqBody {
        from_email: None,
        hello_name: None,
        to_emails: vec![],
        proxy_host: None,
        proxy_port: Some(9050),
    };
    assert_eq!(check_request(body, &conf).proxy, Some(("conf-proxy".to_string(), 9050)));
}

#[test]
fn serverless_requires_to_email() {
    assert_eq!(
        serverless_request(Some("a@b.c".to_string()), None),
        Ok(("a@b.c".to_string(), "user@example.org".to_string()))
    );
    assert_eq!(
        serverless_request(None, Some("x@y.z".to_string())),
        Err("`to_email` is a required query param".to_string())
    );
}

#[test]
fn domain_is_between_the_first_two_at_signs() {
    assert_eq!(domain_of_address("foo@bar.com"), "bar.com");
    assert_eq!(domain_of_address("a@b@c"), "b");
}

#[test]
fn first_check_answers() {
    let results: Vec<Result<u32, String>> = vec![Err("refused".to_string()), Ok(7)];
    assert_eq!(any_success(results), Ok(7));
    let results: Vec<Result<u32, String>> = vec![Err("refused".to_string())];
    assert_eq!(any_success(results), Err(EmailExistsError::BlockedByIsp));
    let results: Vec<Result<u32, String>> = vec![];
    assert_eq!(any_success(results), Err(EmailExistsError::BlockedByIsp));
    assert_eq!(
        mx_lookup_failure(MxLookupError::ResolveError("nx".to_string())),
        EmailExistsError::MxLookup("nx".to_string())
    );
    assert_eq!(
        mx_lookup_failure(MxLookupError::Io("io".to_string())),
        EmailExistsError::Io("io".to_string())
    );
}

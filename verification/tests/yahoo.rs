use check_if_email_exists::yahoo::{
    acrumb_of_cookie, acrumb_of_cookie_without_suffix, api_form_request, api_outcome, capture,
    session_index_of_body, username_of, yid_form_request, yid_outcome, FormRequest,
    FormResponseItem, YahooError, YidFormRequest,
};

#[test]
fn acrumb_is_read_from_the_cookie() {
    let cookie = "AS=v=1&s=abc123&d=A5f; Domain=.yahoo.com; Path=/";
    assert_eq!(acrumb_of_cookie(cookie), Some("abc123".to_string()));
    assert_eq!(acrumb_of_cookie_without_suffix(cookie), Some("abc123&d=A5f".to_string()));
    assert_eq!(acrumb_of_cookie("AS=v=1; Path=/"), None);
    // Without `&d` before the next `;`, the first `s=` gives nothing.
    assert_eq!(acrumb_of_cookie("s=x; t=1&s=y&d=2"), Some("y".to_string()));
}

#[test]
fn captures_are_greedy_and_leftmost() {
    assert_eq!(capture("s=a&db&dc;", "s=", "&d", ';'), Some("a&db".to_string()));
    assert_eq!(capture("xs=1;s=2", "s=", "", ';'), Some("1".to_string()));
    assert_eq!(capture("abc", "s=", "", ';'), None);
}

#[test]
fn session_index_is_read_on_one_line() {
    let body = "<html>\n<input type=\"hidden\" value=\"42\" name=\"sessionIndex\">\n</html>";
    assert_eq!(session_index_of_body(body), Some("42".to_string()));
    let split = "<input type=\"hidden\" value=\"4\n2\" name=\"sessionIndex\">";
    assert_eq!(session_index_of_body(split), None);
}

#[test]
fn form_request_for_the_api() {
    let f = api_form_request(
        "someone@yahoo.com",
        Some(Some("s=crumb&d=1")),
        "<input type=\"hidden\" value=\"7\" name=\"sessionIndex\">",
    )
    .unwrap();
    assert_eq!(
        f,
        FormRequest {
            acrumb: "crumb".to_string(),
            session_index: "7".to_string(),
            spec_id: "yidReg".to_string(),
            user_id: "someone".to_string(),
        }
    );
    assert_eq!(api_form_request("a@yahoo.com", None, ""), Err(YahooError::NoCookie));
    assert_eq!(api_form_request("a@yahoo.com", Some(None), ""), Err(YahooError::NoAcrumb));
    assert_eq!(
        api_form_request("a@yahoo.com", Some(Some("t=1")), ""),
        Err(YahooError::NoAcrumb)
    );
    assert_eq!(
        api_form_request("a@yahoo.com", Some(Some("s=c&d")), "<html/>"),
        Err(YahooError::NoSessionIndex)
    );
    assert_eq!(FormRequest::default().spec_id, "yidReg");
}

#[test]
fn form_request_of_the_first_check() {
    let f = yid_form_request("who@yahoo.com", Some(Some("B=x&s=zz; path=/"))).unwrap();
    assert_eq!(
        f,
        YidFormRequest {
            acrumb: "zz".to_string(),
            spec_id: "yidReg".to_string(),
            yid: "who".to_string(),
        }
    );
    assert_eq!(yid_form_request("who@yahoo.com", None), Err(YahooError::NoCookie));
    assert_eq!(username_of("noat"), "noat");
}

#[test]
fn answers_of_the_sign_up_form() {
    let item = |name: &str, error: &str| FormResponseItem {
        name: name.to_string(),
        error: error.to_string(),
    };
    assert!(api_outcome(&vec![item("userId", "IDENTIFIER_EXISTS")]).is_deliverable);
    assert!(api_outcome(&vec![item("password", "x"), item("userId", "IDENTIFIER_NOT_AVAILABLE")]).is_deliverable);
    assert!(!api_outcome(&vec![item("userId", "IDENTIFIER_INVALID")]).is_deliverable);
    assert!(!api_outcome(&vec![]).is_deliverable);
    assert!(api_outcome(&vec![]).can_connect_smtp);
    assert!(yid_outcome(&vec![item("yid", "IDENTIFIER_EXISTS")]).is_deliverable);
    assert!(!yid_outcome(&vec![item("yid", "IDENTIFIER_NOT_AVAILABLE")]).is_deliverable);
}

#[test]
fn captures_never_hold_their_stop_character() {
    let cookie = "s=ab&dx; s=cd&de";
    let c = acrumb_of_cookie(cookie).unwrap();
    assert_eq!(c, "ab");
    assert!(!c.contains(';'));
    assert_eq!(YahooError::NoCookie.message(), "Cannot find cookie in Yahoo response");
    assert_eq!(
        YahooError::ReqwestError("timeout".to_string()).message(),
        "Error serializing or deserializing HTTP requests and responses: timeout"
    );
}

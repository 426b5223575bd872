use appium_client::commands::{locator_body, AppiumCommand, RequestMethod, RouteError};
use appium_client::find::By;

#[test]
fn find_requests_go_under_the_session() {
    let l = By::id("x");
    assert_eq!(AppiumCommand::FindElement(l.clone()).path("S"), "session/S/element");
    assert_eq!(AppiumCommand::FindElements(l.clone()).path("S"), "session/S/elements");
    assert_eq!(
        AppiumCommand::FindElementWithContext(l.clone(), "ctx-9".to_string()).path("S"),
        "session/S/element/ctx-9/element"
    );
    assert_eq!(
        AppiumCommand::FindElementsWithContext(l, "ctx-9".to_string()).path("S"),
        "session/S/element/ctx-9/elements"
    );
}

#[test]
fn accessibility_id_request_for_session_abc() {
    let cmd = AppiumCommand::FindElement(By::accessibility_id("Go"));
    assert_eq!(cmd.path("abc"), "session/abc/element");
    let (method, body) = cmd.method_and_body();
    assert_eq!(method, RequestMethod::Post);
    assert_eq!(body.unwrap(), r#"{"using":"accessibility id","value":"Go"}"#);
}

#[test]
fn locator_body_escapes_its_strings() {
    let body = locator_body(&By::xpath("//a[@text=\"b\\c\"]"));
    assert_eq!(body, r#"{"using":"xpath","value":"//a[@text=\"b\\c\"]"}"#);
    let parsed: serde_json::Value = serde_json::from_str(&body).unwrap();
    assert_eq!(parsed["value"], "//a[@text=\"b\\c\"]");
}

#[test]
fn custom_request_keeps_method_path_and_body() {
    let body: serde_json::Value = serde_json::from_str(r#"{"tap":"everywhere"}"#).unwrap();
    let cmd = AppiumCommand::Custom(RequestMethod::Put, "quirky_feature".to_string(), Some(body));
    assert_eq!(cmd.path("s1"), "session/s1/quirky_feature");
    let (method, text) = cmd.method_and_body();
    assert_eq!(method, RequestMethod::Put);
    assert_eq!(text.unwrap(), r#"{"tap":"everywhere"}"#);
}

#[test]
fn custom_request_without_body() {
    let cmd = AppiumCommand::Custom(RequestMethod::Delete, String::new(), None);
    assert_eq!(cmd.path("s1"), "session/s1/");
    assert_eq!(cmd.method_and_body(), (RequestMethod::Delete, None));
    assert!(!cmd.is_new_session());
    assert!(!cmd.is_legacy());
}

#[test]
fn endpoint_joins_path_to_server_url() {
    let base = url::Url::parse("http://localhost:4723/wd/hub/").unwrap();
    let cmd = AppiumCommand::FindElementsWithContext(By::name("n"), "e7".to_string());
    let url = cmd.endpoint(&base, Some("abc")).unwrap();
    assert_eq!(url.as_str(), "http://localhost:4723/wd/hub/session/abc/element/e7/elements");
}

#[test]
fn endpoint_without_session() {
    let base = url::Url::parse("http://localhost:4723/").unwrap();
    let cmd = AppiumCommand::FindElement(By::name("n"));
    assert!(matches!(cmd.endpoint(&base, None), Err(RouteError::MissingSession)));
}

#[test]
fn locator_body_escapes_control_characters() {
    let body = locator_body(&By::custom_kind("a\tb", "x\ny\u{1}\u{1f}\u{8}\u{c}\r"));
    assert_eq!(body, r#"{"using":"a\tb","value":"x\ny\u0001\u001f\b\f\r"}"#);
}

#[test]
fn endpoint_against_base_that_cannot_be_a_base() {
    let base = url::Url::parse("mailto:someone@example.com").unwrap();
    assert!(base.cannot_be_a_base());
    let cmd = AppiumCommand::FindElement(By::name("n"));
    assert!(matches!(cmd.endpoint(&base, Some("abc")), Err(RouteError::CannotBeABase)));
}

#[test]
fn endpoint_for_accessibility_id_scenario() {
    let base = url::Url::parse("http://localhost:4723/wd/hub/").unwrap();
    let cmd = AppiumCommand::FindElement(By::accessibility_id("Go"));
    let url = cmd.endpoint(&base, Some("abc")).unwrap();
    assert_eq!(url, url::Url::parse("http://localhost:4723/wd/hub/session/abc/element").unwrap());
    let custom = AppiumCommand::Custom(RequestMethod::Get, "orientation".to_string(), None);
    assert_eq!(custom.endpoint(&base, Some("abc")).unwrap().as_str(), "http://localhost:4723/wd/hub/session/abc/orientation");
}

use appium_client::find::{decode_element, decode_elements, element_id_of, element_ids, By, FindError, LocatorParameters};

fn wire(b: By) -> (String, String) {
    let p: LocatorParameters = b.into();
    (p.using, p.value)
}

#[test]
fn every_strategy_has_its_tag() {
    let cases = vec![
        (By::id("a"), "id"),
        (By::name("a"), "name"),
        (By::xpath("a"), "xpath"),
        (By::uiautomator("a"), "-android uiautomator"),
        (By::android_data_matcher("a"), "-android datamatcher"),
        (By::android_view_matcher("a"), "-android viewmatcher"),
        (By::android_view_tag("a"), "-android viewtag"),
        (By::ios_class_chain("a"), "-ios class chain"),
        (By::ios_ns_predicate("a"), "-ios predicate string"),
        (By::accessibility_id("a"), "accessibility id"),
        (By::class_name("a"), "class name"),
        (By::image("a"), "-image"),
        (By::custom("a"), "-custom"),
    ];
    for (b, tag) in cases {
        assert_eq!(b.using(), tag);
        assert_eq!(b.query(), "a");
        assert_eq!(wire(b), (tag.to_string(), "a".to_string()));
    }
}

#[test]
fn wire_pair_is_the_same_on_equal_locators() {
    let a = By::ios_class_chain("**/XCUIElementTypeButton");
    let b = a.clone();
    assert_eq!(a, b);
    let first = wire(a);
    let second = wire(b);
    assert_eq!(first, second);
    assert!(!first.0.is_empty());
}

#[test]
fn xpath_locator_uses_xpath() {
    assert_eq!(By::xpath("//*[@id='x']"), By::Xpath("//*[@id='x']".to_string()));
    assert_eq!(wire(By::xpath("//a")), ("xpath".to_string(), "//a".to_string()));
}

#[test]
fn custom_kind_sends_its_strategy_verbatim() {
    let b = By::custom_kind("accessibility id", "Find me");
    assert_eq!(wire(b), ("accessibility id".to_string(), "Find me".to_string()));
    let odd = By::custom_kind("-my plugin", "");
    assert_eq!(wire(odd), ("-my plugin".to_string(), String::new()));
}

#[test]
fn element_id_is_read_under_its_marker() {
    let entries = vec![
        ("other".to_string(), "x".to_string()),
        ("ELEMENT".to_string(), "e-1".to_string()),
    ];
    assert_eq!(element_id_of(&entries), Some("e-1".to_string()));
    let none = vec![("element".to_string(), "e-1".to_string())];
    assert_eq!(element_id_of(&none), None);
    assert_eq!(element_id_of(&Vec::new()), None);
}

#[test]
fn element_ids_skip_objects_without_marker() {
    let objects = vec![
        vec![("ELEMENT".to_string(), "a".to_string())],
        vec![],
        vec![("ELEMENT".to_string(), "b".to_string())],
    ];
    assert_eq!(element_ids(&objects), vec!["a".to_string(), "b".to_string()]);
}

#[test]
fn decode_one_element() {
    let value: serde_json::Value = serde_json::from_str(r#"{"ELEMENT":"abc-1"}"#).unwrap();
    assert_eq!(decode_element(value).unwrap(), "abc-1");
}

#[test]
fn decode_one_element_without_marker() {
    let value: serde_json::Value = serde_json::from_str(r#"{"element-6066":"abc-1"}"#).unwrap();
    match decode_element(value.clone()) {
        Err(FindError::NotW3C(v)) => assert_eq!(v, value),
        other => panic!("unexpected {:?}", other),
    }
}

#[test]
fn decode_one_element_from_non_object() {
    let value: serde_json::Value = serde_json::from_str(r#"[1, 2]"#).unwrap();
    assert!(matches!(decode_element(value), Err(FindError::Json(_))));
}

#[test]
fn decode_many_elements_drops_entries_without_marker() {
    let value: serde_json::Value = serde_json::from_str(r#"[{"ELEMENT":"a"},{},{"ELEMENT":"b"}]"#).unwrap();
    assert_eq!(decode_elements(value).unwrap(), vec!["a".to_string(), "b".to_string()]);
}

#[test]
fn decode_many_elements_empty_list() {
    let value: serde_json::Value = serde_json::from_str("[]").unwrap();
    assert_eq!(decode_elements(value).unwrap(), Vec::<String>::new());
}

#[test]
fn decode_many_elements_from_object() {
    let value: serde_json::Value = serde_json::from_str(r#"{"ELEMENT":"a"}"#).unwrap();
    assert!(matches!(decode_elements(value), Err(FindError::Json(_))));
}

#[test]
fn from_gives_the_wire_pair() {
    let p = LocatorParameters::from(By::android_view_tag("tag-1"));
    assert_eq!(p, LocatorParameters { using: "-android viewtag".to_string(), value: "tag-1".to_string() });
}

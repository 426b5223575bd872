//! Locators, their wire form, and the reading of find responses.
use vstd::prelude::*;
use crate::json::{entries_view, entry_view, string_entries_of, string_object, string_object_list, string_object_list_of, Entry};

verus! {

/// Locator strategies understood by an Appium server.
///
/// Every variant carries its query; `CustomKind` also carries the strategy
/// name, sent as it is, for strategies that have no variant of their own.
#[derive(Debug, Clone, PartialEq)]
pub enum By {
    Id(String),
    Name(String),
    Xpath(String),
    UiAutomator(String),
    AndroidDataMatcher(String),
    AndroidViewMatcher(String),
    AndroidViewTag(String),
    IosClassChain(String),
    IosNsPredicate(String),
    AccessibilityId(String),
    ClassName(String),
    Image(String),
    Custom(String),
    CustomKind(String, String),
}

/// The `(using, value)` pair that a find request sends for a locator.
#[derive(Debug, Clone, PartialEq)]
pub struct LocatorParameters {
    pub using: String,
    pub value: String,
}

/// The strategy name that the wire protocol expects for `b`.
pub open spec fn using_tag(b: By) -> Seq<char> {
    match b {
        By::Id(_) => "id"@,
        By::Name(_) => "name"@,
        By::Xpath(_) => "xpath"@,
        By::UiAutomator(_) => "-android uiautomator"@,
        By::AndroidDataMatcher(_) => "-android datamatcher"@,
        By::AndroidViewMatcher(_) => "-android viewmatcher"@,
        By::AndroidViewTag(_) => "-android viewtag"@,
        By::IosClassChain(_) => "-ios class chain"@,
        By::IosNsPredicate(_) => "-ios predicate string"@,
        By::AccessibilityId(_) => "accessibility id"@,
        By::ClassName(_) => "class name"@,
        By::Image(_) => "-image"@,
        By::Custom(_) => "-custom"@,
        By::CustomKind(kind, _) => kind@,
    }
}

/// The query that `b` searches for.
pub open spec fn query_of(b: By) -> Seq<char> {
    match b {
        By::Id(q) => q@,
        By::Name(q) => q@,
        By::Xpath(q) => q@,
        By::UiAutomator(q) => q@,
        By::AndroidDataMatcher(q) => q@,
        By::AndroidViewMatcher(q) => q@,
        By::AndroidViewTag(q) => q@,
        By::IosClassChain(q) => q@,
        By::IosNsPredicate(q) => q@,
        By::AccessibilityId(q) => q@,
        By::ClassName(q) => q@,
        By::Image(q) => q@,
        By::Custom(q) => q@,
        By::CustomKind(_, q) => q@,
    }
}

impl By {
    /// Native element identifier: resource-id on Android, name on iOS.
    pub fn id(id: &str) -> (r: By)
        ensures
            r is Id,
            query_of(r) == id@,
    {
        By::Id(id.to_string())
    }

    /// Name of the element.
    pub fn name(name: &str) -> (r: By)
        ensures
            r is Name,
            query_of(r) == name@,
    {
        By::Name(name.to_string())
    }

    /// Search the app's XML source with an XPath query.
    pub fn xpath(query: &str) -> (r: By)
        ensures
            r is Xpath,
            query_of(r) == query@,
    {
        By::Xpath(query.to_string())
    }

    /// Java code for the UI Automator API (UiSelector), run by the server (UiAutomator2 only).
    pub fn uiautomator(query: &str) -> (r: By)
        ensures
            r is UiAutomator,
            query_of(r) == query@,
    {
        By::UiAutomator(query.to_string())
    }

    /// An Espresso DataMatcher (Espresso only).
    pub fn android_data_matcher(query: &str) -> (r: By)
        ensures
            r is AndroidDataMatcher,
            query_of(r) == query@,
    {
        By::AndroidDataMatcher(query.to_string())
    }

    /// An Espresso ViewMatcher (Espresso only).
    pub fn android_view_matcher(query: &str) -> (r: By)
        ensures
            r is AndroidViewMatcher,
            query_of(r) == query@,
    {
        By::AndroidViewMatcher(query.to_string())
    }

    /// An element's view tag (Espresso only).
    pub fn android_view_tag(query: &str) -> (r: By)
        ensures
            r is AndroidViewTag,
            query_of(r) == query@,
    {
        By::AndroidViewTag(query.to_string())
    }

    /// An iOS class chain: faster, but less powerful, than XPath on iOS.
    pub fn ios_class_chain(query: &str) -> (r: By)
        ensures
            r is IosClassChain,
            query_of(r) == query@,
    {
        By::IosClassChain(query.to_string())
    }

    /// A recursive element search with an iOS predicate string (iOS 10.0 and above).
    pub fn ios_ns_predicate(query: &str) -> (r: By)
        ensures
            r is IosNsPredicate,
            query_of(r) == query@,
    {
        By::IosNsPredicate(query.to_string())
    }

    /// A unique identifier: accessibility-id on XCUITest, content-desc on Android.
    pub fn accessibility_id(id: &str) -> (r: By)
        ensures
            r is AccessibilityId,
            query_of(r) == id@,
    {
        By::AccessibilityId(id.to_string())
    }

    /// The full class name of the element (XCUIElementType... on iOS, android.widget.TextView on Android).
    pub fn class_name(class_name: &str) -> (r: By)
        ensures
            r is ClassName,
            query_of(r) == class_name@,
    {
        By::ClassName(class_name.to_string())
    }

    /// Match an element against a base64-encoded image template.
    pub fn image(base64_template: &str) -> (r: By)
        ensures
            r is Image,
            query_of(r) == base64_template@,
    {
        By::Image(base64_template.to_string())
    }

    /// A locator for plugins registered with the customFindModules capability.
    pub fn custom(query: &str) -> (r: By)
        ensures
            r is Custom,
            query_of(r) == query@,
    {
        By::Custom(query.to_string())
    }

    /// A strategy that has no variant of its own: `using` is sent verbatim.
    pub fn custom_kind(using: &str, value: &str) -> (r: By)
        ensures
            r is CustomKind,
            using_tag(r) == using@,
            query_of(r) == value@,
    {
        By::CustomKind(using.to_string(), value.to_string())
    }

    /// The strategy name sent for this locator.
    pub fn using(&self) -> (r: &str)
        ensures
            r@ == using_tag(*self),
    {
        match self {
            By::Id(_) => "id",
            By::Name(_) => "name",
            By::Xpath(_) => "xpath",
            By::UiAutomator(_) => "-android uiautomator",
            By::AndroidDataMatcher(_) => "-android datamatcher",
            By::AndroidViewMatcher(_) => "-android viewmatcher",
            By::AndroidViewTag(_) => "-android viewtag",
            By::IosClassChain(_) => "-ios class chain",
            By::IosNsPredicate(_) => "-ios predicate string",
            By::AccessibilityId(_) => "accessibility id",
            By::ClassName(_) => "class name",
            By::Image(_) => "-image",
            By::Custom(_) => "-custom",
            By::CustomKind(kind, _) => kind.as_str(),
        }
    }

    /// The query sent for this locator.
    pub fn query(&self) -> (r: &str)
        ensures
            r@ == query_of(*self),
    {
        match self {
            By::Id(q) => q.as_str(),
            By::Name(q) => q.as_str(),
            By::Xpath(q) => q.as_str(),
            By::UiAutomator(q) => q.as_str(),
            By::AndroidDataMatcher(q) => q.as_str(),
            By::AndroidViewMatcher(q) => q.as_str(),
            By::AndroidViewTag(q) => q.as_str(),
            By::IosClassChain(q) => q.as_str(),
            By::IosNsPredicate(q) => q.as_str(),
            By::AccessibilityId(q) => q.as_str(),
            By::ClassName(q) => q.as_str(),
            By::Image(q) => q.as_str(),
            By::Custom(q) => q.as_str(),
            By::CustomKind(_, q) => q.as_str(),
        }
    }

    /// The `(using, value)` pair sent on the wire for this locator.
    pub fn to_wire(self) -> (r: LocatorParameters)
        ensures
            r.using@ == using_tag(self),
            r.value@ == query_of(self),
    {
        let (using, value) = match self {
            By::Id(value) => (String::from_str("id"), value),
            By::Name(value) => (String::from_str("name"), value),
            By::Xpath(value) => (String::from_str("xpath"), value),
            By::UiAutomator(value) => (String::from_str("-android uiautomator"), value),
            By::AndroidDataMatcher(value) => (String::from_str("-android datamatcher"), value),
            By::AndroidViewMatcher(value) => (String::from_str("-android viewmatcher"), value),
            By::AndroidViewTag(value) => (String::from_str("-android viewtag"), value),
            By::IosClassChain(value) => (String::from_str("-ios class chain"), value),
            By::IosNsPredicate(value) => (String::from_str("-ios predicate string"), value),
            By::AccessibilityId(value) => (String::from_str("accessibility id"), value),
            By::ClassName(value) => (String::from_str("class name"), value),
            By::Image(value) => (String::from_str("-image"), value),
            By::Custom(value) => (String::from_str("-custom"), value),
            By::CustomKind(kind, value) => (kind, value),
        };
        LocatorParameters { using, value }
    }
}

impl From<By> for LocatorParameters {
    /// The wire pair of `val`: its strategy name and its query.
    fn from(val: By) -> (r: LocatorParameters)
        ensures
            r.using@ == using_tag(val),
            r.value@ == query_of(val),
    {
        val.to_wire()
    }
}

impl vstd::std_specs::convert::FromSpecImpl<By> for LocatorParameters {
    open spec fn obeys_from_spec() -> bool {
        false
    }

    open spec fn from_spec(v: By) -> LocatorParameters {
        arbitrary()
    }
}

/// The wire pair depends on the locator alone: equal locators give equal
/// pairs, and every strategy but a hand-written `CustomKind` with an empty
/// name has a non-empty strategy name.
pub proof fn lemma_wire_pair_is_total(a: By, b: By)
    requires
        a == b,
    ensures
        using_tag(a) == using_tag(b),
        query_of(a) == query_of(b),
        !(a is CustomKind) ==> using_tag(a).len() > 0,
        a is CustomKind ==> using_tag(a) == a->CustomKind_0@,
{
    reveal_strlit("id");
    reveal_strlit("name");
    reveal_strlit("xpath");
    reveal_strlit("-android uiautomator");
    reveal_strlit("-android datamatcher");
    reveal_strlit("-android viewmatcher");
    reveal_strlit("-android viewtag");
    reveal_strlit("-ios class chain");
    reveal_strlit("-ios predicate string");
    reveal_strlit("accessibility id");
    reveal_strlit("class name");
    reveal_strlit("-image");
    reveal_strlit("-custom");
}


/// Why a find response could not be read.
#[derive(Debug)]
pub enum FindError {
    /// The response is not an object (or list of objects) of strings.
    Json(serde_json::Error),
    /// The object names no element under the marker key.
    NotW3C(serde_json::Value),
}

/// The key under which a response names an element.
pub open spec fn marker() -> Seq<char> {
    "ELEMENT"@
}

/// The value of the first entry whose key is `key`.
pub open spec fn lookup(entries: Seq<Entry>, key: Seq<char>) -> Option<Seq<char>>
    decreases entries.len(),
{
    if entries.len() == 0 {
        None
    } else if entries[0].0 == key {
        Some(entries[0].1)
    } else {
        lookup(entries.drop_first(), key)
    }
}

/// The element identifiers of a list of response objects, in order, leaving
/// out each object that names no element.
pub open spec fn ids_of(objects: Seq<Seq<Entry>>) -> Seq<Seq<char>>
    decreases objects.len(),
{
    if objects.len() == 0 {
        Seq::empty()
    } else {
        let rest = ids_of(objects.drop_last());
        match lookup(objects.last(), marker()) {
            Some(id) => rest.push(id),
            None => rest,
        }
    }
}

/// The characters of each object of a list.
pub open spec fn objects_view(objects: Seq<Vec<(String, String)>>) -> Seq<Seq<Entry>> {
    objects.map_values(|o: Vec<(String, String)>| entries_view(o@))
}

proof fn lemma_ids_of_concat(a: Seq<Seq<Entry>>, b: Seq<Seq<Entry>>)
    ensures
        ids_of(a + b) == ids_of(a) + ids_of(b),
    decreases b.len(),
{
    if b.len() == 0 {
        assert(a + b =~= a);
        assert(ids_of(a) + ids_of(b) =~= ids_of(a));
    } else {
        lemma_ids_of_concat(a, b.drop_last());
        assert((a + b).drop_last() =~= a + b.drop_last());
        assert((a + b).last() == b.last());
        match lookup(b.last(), marker()) {
            Some(id) => {
                assert(ids_of(a) + ids_of(b.drop_last()).push(id) =~= (ids_of(a) + ids_of(b.drop_last())).push(id));
            },
            None => {},
        }
    }
}

/// In a list response, an object that names no element is left out and
/// changes nothing else, and one that names element `id` adds exactly `id`
/// in its place: inserting `o` between `before` and `after` does so.
pub proof fn lemma_list_decode_skips_unmarked(before: Seq<Seq<Entry>>, o: Seq<Entry>, after: Seq<Seq<Entry>>)
    ensures
        lookup(o, marker()) is None ==> ids_of(before.push(o) + after) == ids_of(before + after),
        lookup(o, marker()) matches Some(id) ==> ids_of(before.push(o) + after)
            == ids_of(before) + seq![id] + ids_of(after),
{
    lemma_ids_of_concat(before.push(o), after);
    lemma_ids_of_concat(before, after);
    assert(before.push(o).drop_last() =~= before);
    match lookup(o, marker()) {
        Some(id) => {
            assert(ids_of(before).push(id) =~= ids_of(before) + seq![id]);
        },
        None => {},
    }
}

/// The element identifier that one response object names, if any.
pub fn element_id_of(entries: &Vec<(String, String)>) -> (r: Option<String>)
    ensures
        match r {
            Some(id) => lookup(entries_view(entries@), marker()) == Some(id@),
            None => lookup(entries_view(entries@), marker()) is None,
        },
{
    let key = String::from_str("ELEMENT");
    let ghost es = entries_view(entries@);
    let mut i: usize = 0;
    assert(es.skip(0) =~= es);
    while i < entries.len()
        invariant
            0 <= i <= entries@.len(),
            key@ == marker(),
            es == entries_view(entries@),
            lookup(es, marker()) == lookup(es.skip(i as int), marker()),
        decreases entries@.len() - i,
    {
        assert(es.skip(i as int).drop_first() =~= es.skip(i as int + 1));
        assert(es.skip(i as int)[0] == entry_view(entries@[i as int]));
        if entries[i].0 == key {
            return Some(entries[i].1.clone());
        }
        i = i + 1;
    }
    None
}

/// The element identifiers of a list of response objects, in order; an
/// object that names no element is left out rather than failing the list.
pub fn element_ids(objects: &Vec<Vec<(String, String)>>) -> (r: Vec<String>)
    ensures
        r@.map_values(|s: String| s@) == ids_of(objects_view(objects@)),
{
    let mut r: Vec<String> = Vec::new();
    let mut i: usize = 0;
    while i < objects.len()
        invariant
            0 <= i <= objects@.len(),
            r@.map_values(|s: String| s@) == ids_of(objects_view(objects@).take(i as int)),
        decreases objects@.len() - i,
    {
        let ghost os = objects_view(objects@);
        assert(os.take(i as int + 1).drop_last() =~= os.take(i as int));
        assert(os.take(i as int + 1).last() == entries_view(objects@[i as int]@));
        let found = element_id_of(&objects[i]);
        match found {
            Some(id) => {
                r.push(id);
            },
            None => {},
        }
        assert(r@.map_values(|s: String| s@) =~= ids_of(os.take(i as int + 1)));
        i = i + 1;
    }
    assert(objects_view(objects@).take(objects@.len() as int) =~= objects_view(objects@));
    r
}

/// Reads the response to a find-one request: the identifier of the element
/// that it names under the marker key, a JSON error where it is not an
/// object of strings, or the response itself where it names no element.
pub fn decode_element(value: serde_json::Value) -> (r: Result<String, FindError>)
    ensures
        match string_entries_of(value) {
            None => r matches Err(FindError::Json(_)),
            Some(es) => match lookup(es, marker()) {
                Some(id) => r matches Ok(x) && x@ == id,
                None => r matches Err(FindError::NotW3C(v)) && v == value,
            },
        },
{
    match string_object(&value) {
        Err(e) => Err(FindError::Json(e)),
        Ok(entries) => match element_id_of(&entries) {
            Some(id) => Ok(id),
            None => Err(FindError::NotW3C(value)),
        },
    }
}

/// Reads the response to a find-all request: the identifiers of the
/// elements that it names, in order and without the objects that name none,
/// or a JSON error where it is not a list of objects of strings.
pub fn decode_elements(value: serde_json::Value) -> (r: Result<Vec<String>, FindError>)
    ensures
        match string_object_list_of(value) {
            None => r matches Err(FindError::Json(_)),
            Some(objects) => r matches Ok(ids) && ids@.map_values(|s: String| s@) == ids_of(objects),
        },
{
    match string_object_list(&value) {
        Err(e) => Err(FindError::Json(e)),
        Ok(objects) => Ok(element_ids(&objects)),
    }
}

} // verus!

//! Requests that the library sends to an Appium server, and where they go.
pub mod keyboard;
pub mod rotation;

use vstd::prelude::*;
use crate::find::{By, using_tag, query_of};
use crate::json::{json_quoted, json_text_of, quote_json, json_text};

verus! {

#[verifier::external_type_specification]
#[verifier::external_body]
pub struct ExUrl(url::Url);

#[verifier::external_type_specification]
#[verifier::external_body]
pub struct ExParseError(url::ParseError);

/// The URL that url gives for `input` resolved against `base`, or its
/// parse error.
pub uninterp spec fn joined(base: url::Url, input: Seq<char>) -> Result<url::Url, url::ParseError>;

/// Whether url holds `u` to be a URL that cannot be a base
/// (`Url::cannot_be_a_base`, as `mailto:` or `data:` URLs).
pub uninterp spec fn cannot_be_base(u: url::Url) -> bool;

/// Relies on url::Url::cannot_be_a_base: whether `u` cannot be a base
/// for relative URLs.
#[verifier::external_body]
fn url_cannot_be_a_base(u: &url::Url) -> (r: bool)
    ensures
        r == cannot_be_base(*u),
{
    u.cannot_be_a_base()
}

/// Relies on url::Url::join: `input` resolved against `base`, or the parse
/// error.
#[verifier::external_body]
fn join_url(base: &url::Url, input: &str) -> (r: Result<url::Url, url::ParseError>)
    ensures
        r == joined(*base, input@),
{
    base.join(input)
}

/// The HTTP method of a request.
#[derive(Debug, Clone, Copy, PartialEq, Eq, Structural)]
pub enum RequestMethod {
    Get,
    Post,
    Put,
    Delete,
    Patch,
    Head,
    Options,
}

/// A request to the server, within the current session.
///
/// `Custom` covers every command that has no variant of its own: its path is
/// relative to the session and its body, if any, is sent as it is.
#[derive(Debug, PartialEq)]
pub enum AppiumCommand {
    FindElement(By),
    FindElementWithContext(By, String),
    FindElements(By),
    FindElementsWithContext(By, String),
    Custom(RequestMethod, String, Option<serde_json::Value>),
}

/// Why a request could not be given a URL.
#[derive(Debug)]
pub enum RouteError {
    /// There is no session to address.
    MissingSession,
    /// The server's URL cannot be a base for the request's path.
    CannotBeABase,
    /// The request's path does not resolve against the server's URL.
    Url(url::ParseError),
}

/// The path of a request, relative to its session.
pub open spec fn relative_path(c: AppiumCommand) -> Seq<char> {
    match c {
        AppiumCommand::FindElement(_) => "element"@,
        AppiumCommand::FindElements(_) => "elements"@,
        AppiumCommand::FindElementWithContext(_, ctx) => "element/"@ + ctx@ + "/element"@,
        AppiumCommand::FindElementsWithContext(_, ctx) => "element/"@ + ctx@ + "/elements"@,
        AppiumCommand::Custom(_, path, _) => path@,
    }
}

/// The path of a request relative to the server's URL.
pub open spec fn request_path(c: AppiumCommand, session: Seq<char>) -> Seq<char> {
    "session/"@ + session + "/"@ + relative_path(c)
}

/// The JSON body of a find request for `b`.
pub open spec fn locator_json(b: By) -> Seq<char> {
    "{\"using\":"@ + json_quoted(using_tag(b)) + ",\"value\":"@ + json_quoted(query_of(b)) + "}"@
}

/// The method of a request.
pub open spec fn method_of(c: AppiumCommand) -> RequestMethod {
    match c {
        AppiumCommand::Custom(m, _, _) => m,
        _ => RequestMethod::Post,
    }
}

/// The locator of a find request.
pub open spec fn locator_of(c: AppiumCommand) -> By {
    match c {
        AppiumCommand::FindElement(b) => b,
        AppiumCommand::FindElements(b) => b,
        AppiumCommand::FindElementWithContext(b, _) => b,
        AppiumCommand::FindElementsWithContext(b, _) => b,
        AppiumCommand::Custom(..) => arbitrary(),
    }
}

/// The JSON text `{"using":..,"value":..}` of the locator's wire pair.
pub fn locator_body(b: &By) -> (r: String)
    ensures
        r@ == locator_json(*b),
{
    let mut r = String::from_str("{\"using\":");
    let using = quote_json(b.using());
    r.append(using.as_str());
    r.append(",\"value\":");
    let value = quote_json(b.query());
    r.append(value.as_str());
    r.append("}");
    r
}

impl AppiumCommand {
    /// The path of this request relative to the server's URL, for the
    /// session `session_id`.
    pub fn path(&self, session_id: &str) -> (r: String)
        ensures
            r@ == request_path(*self, session_id@),
    {
        let mut r = String::from_str("session/");
        r.append(session_id);
        r.append("/");
        let ghost prefix = r@;
        match self {
            AppiumCommand::FindElement(_) => {
                r.append("element");
            },
            AppiumCommand::FindElements(_) => {
                r.append("elements");
            },
            AppiumCommand::FindElementWithContext(_, ctx) => {
                r.append("element/");
                r.append(ctx.as_str());
                r.append("/element");
            },
            AppiumCommand::FindElementsWithContext(_, ctx) => {
                r.append("element/");
                r.append(ctx.as_str());
                r.append("/elements");
            },
            AppiumCommand::Custom(_, path, _) => {
                r.append(path.as_str());
            },
        }
        assert(r@ =~= prefix + relative_path(*self));
        r
    }

    /// The URL of this request: its path resolved against the server's URL.
    /// A server URL that cannot be a base gives an error.
    pub fn endpoint(&self, base_url: &url::Url, session_id: Option<&str>) -> (r: Result<url::Url, RouteError>)
        ensures
            session_id is None <==> r matches Err(RouteError::MissingSession),
            session_id is Some && cannot_be_base(*base_url) ==> r matches Err(RouteError::CannotBeABase),
            !cannot_be_base(*base_url) ==> (session_id matches Some(id) ==> r == (match joined(
                *base_url,
                request_path(*self, id@),
            ) {
                Ok(u) => Ok::<url::Url, RouteError>(u),
                Err(e) => Err(RouteError::Url(e)),
            })),
    {
        match session_id {
            None => Err(RouteError::MissingSession),
            Some(id) => {
                if url_cannot_be_a_base(base_url) {
                    return Err(RouteError::CannotBeABase);
                }
                let path = self.path(id);
                match join_url(base_url, path.as_str()) {
                    Ok(u) => Ok(u),
                    Err(e) => Err(RouteError::Url(e)),
                }
            },
        }
    }

    /// The method of this request and the text of its body: a find request
    /// posts its locator's wire pair, a custom one sends its own method and
    /// body.
    pub fn method_and_body(&self) -> (r: (RequestMethod, Option<String>))
        ensures
            r.0 == method_of(*self),
            !(self is Custom) ==> (r.1 matches Some(body) && body@ == locator_json(locator_of(*self))),
            self matches AppiumCommand::Custom(_, _, v) ==> (r.1 is Some <==> v is Some),
            *self matches AppiumCommand::Custom(_, _, Some(v)) ==> (r.1 matches Some(b) && b@ == json_text_of(v)),
    {
        match self {
            AppiumCommand::FindElement(b) => (RequestMethod::Post, Some(locator_body(b))),
            AppiumCommand::FindElements(b) => (RequestMethod::Post, Some(locator_body(b))),
            AppiumCommand::FindElementWithContext(b, _) => (RequestMethod::Post, Some(locator_body(b))),
            AppiumCommand::FindElementsWithContext(b, _) => (RequestMethod::Post, Some(locator_body(b))),
            AppiumCommand::Custom(m, _, v) => {
                let body = match v {
                    Some(v) => Some(json_text(v)),
                    None => None,
                };
                (*m, body)
            },
        }
    }

    /// These requests never open a session.
    pub fn is_new_session(&self) -> (r: bool)
        ensures
            !r,
    {
        false
    }

    /// These requests follow the W3C protocol, not the legacy one.
    pub fn is_legacy(&self) -> (r: bool)
        ensures
            !r,
    {
        false
    }
}

/// Where find requests go: a find-one request for any locator against
/// session `s` goes to `session/s/element`, a find-all one to
/// `session/s/elements`, and the ones within element `ctx` to
/// `session/s/element/ctx/element` and `session/s/element/ctx/elements`.
pub proof fn lemma_find_request_paths(l: By, s: Seq<char>, ctx: String)
    ensures
        request_path(AppiumCommand::FindElement(l), s) == "session/"@ + s + "/element"@,
        request_path(AppiumCommand::FindElements(l), s) == "session/"@ + s + "/elements"@,
        request_path(AppiumCommand::FindElementWithContext(l, ctx), s)
            == "session/"@ + s + "/element/"@ + ctx@ + "/element"@,
        request_path(AppiumCommand::FindElementsWithContext(l, ctx), s)
            == "session/"@ + s + "/element/"@ + ctx@ + "/elements"@,
{
    reveal_strlit("/");
    reveal_strlit("element");
    reveal_strlit("elements");
    reveal_strlit("/element");
    reveal_strlit("/elements");
    reveal_strlit("element/");
    reveal_strlit("/element/");
    assert("/"@ + "element"@ =~= "/element"@);
    assert("/"@ + "elements"@ =~= "/elements"@);
    assert("/"@ + "element/"@ =~= "/element/"@);
    let p = "session/"@ + s;
    assert(p + "/"@ + "element"@ =~= p + "/element"@);
    assert(p + "/"@ + "elements"@ =~= p + "/elements"@);
    assert(p + "/"@ + ("element/"@ + ctx@ + "/element"@) =~= p + "/element/"@ + ctx@ + "/element"@);
    assert(p + "/"@ + ("element/"@ + ctx@ + "/elements"@) =~= p + "/element/"@ + ctx@ + "/elements"@);
}

} // verus!

//! The data model: alias records, their payloads and agent rules, and the
//! response a selected record turns into.

use std::collections::HashMap;
use vstd::prelude::*;

verus! {

/// An optional rule that ties an alias to clients whose User-Agent matches
/// `regex`. With `only_matching` set to `Some(true)` the alias is hidden from
/// every client that does not match.
#[derive(Clone, Debug, PartialEq, Eq)]
pub struct Agent {
    pub regex: String,
    pub only_matching: Option<bool>,
}

/// The mathematical value of an [`Agent`].
pub struct AgentView {
    pub regex: Seq<char>,
    pub only_matching: Option<bool>,
}

impl View for Agent {
    type V = AgentView;

    open spec fn view(&self) -> AgentView {
        AgentView { regex: self.regex@, only_matching: self.only_matching }
    }
}

/// A resource fetched from elsewhere with a GET request that carries `headers`.
#[derive(Clone, Debug, PartialEq, Eq)]
pub struct External {
    pub url: String,
    pub headers: HashMap<String, String>,
}

/// The mathematical value of an [`External`].
pub struct ExternalView {
    pub url: Seq<char>,
    pub headers: Map<String, String>,
}

impl View for External {
    type V = ExternalView;

    open spec fn view(&self) -> ExternalView {
        ExternalView { url: self.url@, headers: self.headers@ }
    }
}

/// What an alias serves.
#[derive(Clone, Debug, PartialEq, Eq)]
pub enum AliasType {
    /// Redirect the client to this URL.
    Url(String),
    /// Serve the text of this file, named relative to the base directory.
    File(String),
    /// Serve this literal body as plain text.
    Text(String),
    /// Serve this literal body as HTML.
    Html(String),
    /// Fetch the body from another server and pass it on.
    External(External),
}

/// The mathematical value of an [`AliasType`].
pub enum AliasTypeView {
    Url(Seq<char>),
    File(Seq<char>),
    Text(Seq<char>),
    Html(Seq<char>),
    External(ExternalView),
}

impl View for AliasType {
    type V = AliasTypeView;

    open spec fn view(&self) -> AliasTypeView {
        match self {
            AliasType::Url(target) => AliasTypeView::Url(target@),
            AliasType::File(path) => AliasTypeView::File(path@),
            AliasType::Text(body) => AliasTypeView::Text(body@),
            AliasType::Html(body) => AliasTypeView::Html(body@),
            AliasType::External(source) => AliasTypeView::External(source@),
        }
    }
}

/// One configured mapping from a request path to a payload.
#[derive(Clone, Debug, PartialEq, Eq)]
pub struct Alias {
    pub uri: String,
    pub alias: AliasType,
    pub agent: Option<Agent>,
}

/// The mathematical value of an [`Alias`].
pub struct AliasView {
    pub uri: Seq<char>,
    pub alias: AliasTypeView,
    pub agent: Option<AgentView>,
}

impl View for Alias {
    type V = AliasView;

    open spec fn view(&self) -> AliasView {
        AliasView {
            uri: self.uri@,
            alias: self.alias@,
            agent: match self.agent {
                Some(agent) => Some(agent@),
                None => None,
            },
        }
    }
}

/// A configuration whose records sit under the key `alias` rather than at
/// the top level.
#[derive(Clone, Debug, PartialEq, Eq)]
pub struct NixJson {
    pub alias: Vec<Alias>,
}

impl NixJson {
    /// The records, in the order the configuration lists them.
    pub fn into_records(self) -> (records: Vec<Alias>)
        ensures
            records == self.alias,
    {
        self.alias
    }
}

/// The views of the records, in order.
pub open spec fn record_views(records: Seq<Alias>) -> Seq<AliasView> {
    records.map_values(|record: Alias| record@)
}

/// The User-Agent header of a request; empty when the request had none.
#[derive(Clone, Debug, PartialEq, Eq)]
pub struct UserAgent(pub String);

impl UserAgent {
    /// Takes the header's value, or the empty string where the header is absent.
    pub fn from_header(header: Option<&str>) -> (agent: UserAgent)
        ensures
            agent.0@ == (match header {
                Some(value) => value@,
                None => Seq::<char>::empty(),
            }),
    {
        match header {
            Some(value) => UserAgent(value.to_owned()),
            None => UserAgent(String::new()),
        }
    }
}

/// The status of a response that carries a body.
pub const STATUS_OK: u16 = 200;

/// The status of a redirect.
pub const STATUS_SEE_OTHER: u16 = 303;

/// The status of the answer to a path that no alias serves.
pub const STATUS_NOT_FOUND: u16 = 404;

/// The status of the answer to a request whose dispatch failed.
pub const STATUS_INTERNAL_SERVER_ERROR: u16 = 500;

/// What is sent back to the client.
#[derive(Clone, Debug, PartialEq, Eq)]
pub enum Response {
    /// A body served as plain text.
    Text(String),
    /// A body served as HTML.
    Html(String),
    /// A redirect to this URL, without a body.
    Redirect(String),
    /// A bare status, without a body.
    Status(u16),
    /// A body served under the content type given first.
    Custom(String, String),
}

/// The mathematical value of a [`Response`].
pub enum ResponseView {
    Text(Seq<char>),
    Html(Seq<char>),
    Redirect(Seq<char>),
    Status(u16),
    Custom(Seq<char>, Seq<char>),
}

impl ResponseView {
    /// The status code the response is sent with.
    pub open spec fn status(self) -> u16 {
        match self {
            ResponseView::Text(_) => STATUS_OK,
            ResponseView::Html(_) => STATUS_OK,
            ResponseView::Redirect(_) => STATUS_SEE_OTHER,
            ResponseView::Status(code) => code,
            ResponseView::Custom(_, _) => STATUS_OK,
        }
    }

    /// The content type of the body, where there is a body.
    pub open spec fn content_type(self) -> Option<Seq<char>> {
        match self {
            ResponseView::Text(_) => Some("text/plain"@),
            ResponseView::Html(_) => Some("text/html"@),
            ResponseView::Redirect(_) => None,
            ResponseView::Status(_) => None,
            ResponseView::Custom(content_type, _) => Some(content_type),
        }
    }

    /// The body, where there is one.
    pub open spec fn body(self) -> Option<Seq<char>> {
        match self {
            ResponseView::Text(body) => Some(body),
            ResponseView::Html(body) => Some(body),
            ResponseView::Redirect(_) => None,
            ResponseView::Status(_) => None,
            ResponseView::Custom(_, body) => Some(body),
        }
    }

    /// The URL a redirect points to.
    pub open spec fn location(self) -> Option<Seq<char>> {
        match self {
            ResponseView::Redirect(target) => Some(target),
            _ => None,
        }
    }
}

impl View for Response {
    type V = ResponseView;

    open spec fn view(&self) -> ResponseView {
        match self {
            Response::Text(body) => ResponseView::Text(body@),
            Response::Html(body) => ResponseView::Html(body@),
            Response::Redirect(target) => ResponseView::Redirect(target@),
            Response::Status(code) => ResponseView::Status(*code),
            Response::Custom(content_type, body) => ResponseView::Custom(content_type@, body@),
        }
    }
}

/// The view of a string slice that may be absent.
pub open spec fn optional_text(text: Option<&str>) -> Option<Seq<char>> {
    match text {
        Some(text) => Some(text@),
        None => None,
    }
}

impl Response {
    /// The status code the response is sent with.
    pub fn status(&self) -> (code: u16)
        ensures
            code == self@.status(),
    {
        match self {
            Response::Text(_) => STATUS_OK,
            Response::Html(_) => STATUS_OK,
            Response::Redirect(_) => STATUS_SEE_OTHER,
            Response::Status(code) => *code,
            Response::Custom(_, _) => STATUS_OK,
        }
    }

    /// The content type of the body, where there is a body.
    pub fn content_type(&self) -> (content_type: Option<&str>)
        ensures
            optional_text(content_type) == self@.content_type(),
    {
        match self {
            Response::Text(_) => Some("text/plain"),
            Response::Html(_) => Some("text/html"),
            Response::Redirect(_) => None,
            Response::Status(_) => None,
            Response::Custom(content_type, _) => Some(content_type.as_str()),
        }
    }

    /// The body, where there is one.
    pub fn body(&self) -> (body: Option<&str>)
        ensures
            optional_text(body) == self@.body(),
    {
        match self {
            Response::Text(body) => Some(body.as_str()),
            Response::Html(body) => Some(body.as_str()),
            Response::Redirect(_) => None,
            Response::Status(_) => None,
            Response::Custom(_, body) => Some(body.as_str()),
        }
    }

    /// The URL a redirect points to.
    pub fn location(&self) -> (target: Option<&str>)
        ensures
            optional_text(target) == self@.location(),
    {
        match self {
            Response::Redirect(target) => Some(target.as_str()),
            _ => None,
        }
    }
}

} // verus!

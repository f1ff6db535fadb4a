//! The dispatcher: what a selected alias is answered with.
//!
//! Reading a file and fetching from another server are left to the caller.
//! [`get_return`] says what has to be done, and [`file_response`] and
//! [`external_response`] turn what came of it into a response.

use rocket::http::ContentType;
use vstd::prelude::*;

use crate::decode::decode_path;
use crate::decode::percent_decoded;
use crate::model::Alias;
use crate::model::AliasType;
use crate::model::AliasTypeView;
use crate::model::AliasView;
use crate::model::External;
use crate::model::ExternalView;
use crate::model::Response;
use crate::model::ResponseView;
use crate::model::UserAgent;
use crate::model::STATUS_INTERNAL_SERVER_ERROR;
use crate::model::STATUS_NOT_FOUND;
use crate::selection::resolved;
use crate::resolver::Resolver;

verus! {

/// `rocket::http::ContentType`, a parsed content type, carried as an opaque
/// value.
#[verifier::external_type_specification]
#[verifier::external_body]
pub struct ExContentType(rocket::http::ContentType);

/// Whether the text names a content type: a known short name such as
/// `html`, or a media type written out.
pub uninterp spec fn content_type_parses(name: Seq<char>) -> bool;

/// `rocket::http::ContentType::parse_flexible` hands back a content type
/// exactly for the names that parse; which names do is a matter of the
/// name alone.
pub assume_specification[ rocket::http::ContentType::parse_flexible ](name: &str) -> (parsed:
    Option<ContentType>)
    ensures
        parsed.is_some() == content_type_parses(name@),
;

/// Why a selected alias could not be served.
#[derive(Clone, Copy, Debug, PartialEq, Eq, Structural)]
pub enum DispatchError {
    /// The file could not be read as UTF-8 text.
    FileRead,
    /// The other server could not be reached or answered with a failure.
    Fetch,
    /// The other server named a content type that does not parse.
    ContentType,
    /// The other server's body could not be read as text.
    Body,
}

/// What the caller has to do for a selected alias.
#[derive(Clone, Debug, PartialEq, Eq)]
pub enum Action {
    /// Send this response; nothing else is needed.
    Respond(Response),
    /// Read this file, named relative to the base directory, and hand the
    /// outcome to [`file_response`].
    ReadFile(String),
    /// Send a GET request to `url` with `headers`, and hand the outcome to
    /// [`external_response`].
    Fetch(External),
}

/// The mathematical value of an [`Action`].
pub enum ActionView {
    Respond(ResponseView),
    ReadFile(Seq<char>),
    Fetch(ExternalView),
}

impl View for Action {
    type V = ActionView;

    open spec fn view(&self) -> ActionView {
        match self {
            Action::Respond(response) => ActionView::Respond(response@),
            Action::ReadFile(path) => ActionView::ReadFile(path@),
            Action::Fetch(source) => ActionView::Fetch(source@),
        }
    }
}

/// What came of a GET request to another server.
#[derive(Clone, Debug, PartialEq, Eq)]
pub enum FetchOutcome {
    /// No answer, or an answer with a status that reports a failure.
    Failed,
    /// An answer with its content type, and its body where that could be
    /// read as text.
    Answered { content_type: String, body: Option<String> },
}

/// The action that serves a payload: literal bodies and redirects are
/// answered at once, files and external sources need the caller.
pub open spec fn planned(alias: AliasView) -> ActionView {
    match alias.alias {
        AliasTypeView::Url(target) => ActionView::Respond(ResponseView::Redirect(target)),
        AliasTypeView::File(path) => ActionView::ReadFile(path),
        AliasTypeView::Text(body) => ActionView::Respond(ResponseView::Text(body)),
        AliasTypeView::Html(body) => ActionView::Respond(ResponseView::Html(body)),
        AliasTypeView::External(source) => ActionView::Fetch(source),
    }
}

/// The action for a request: that of the resolved record, or a bare 404
/// where no record is resolved.
pub open spec fn page_action(
    records: Seq<AliasView>,
    decoded_path: Seq<char>,
    user_agent: Seq<char>,
) -> ActionView {
    match resolved(records, decoded_path, user_agent) {
        Some(alias) => planned(alias),
        None => ActionView::Respond(ResponseView::Status(STATUS_NOT_FOUND)),
    }
}

/// The view of a response or the error in its place.
pub open spec fn outcome_view(outcome: Result<Response, DispatchError>) -> Result<
    ResponseView,
    DispatchError,
> {
    match outcome {
        Ok(response) => Ok(response@),
        Err(error) => Err(error),
    }
}

/// The view of a string that may be absent.
pub open spec fn optional_string(text: Option<String>) -> Option<Seq<char>> {
    match text {
        Some(text) => Some(text@),
        None => None,
    }
}

/// The response to an answer from another server, given whether its
/// content type parses: the body under that content type, as it was named.
pub open spec fn answered(content_type: Seq<char>, recognized: bool, body: Option<Seq<char>>)
    -> Result<ResponseView, DispatchError> {
    if !recognized {
        Err(DispatchError::ContentType)
    } else {
        match body {
            Some(body) => Ok(ResponseView::Custom(content_type, body)),
            None => Err(DispatchError::Body),
        }
    }
}

/// The action that serves `alias`.
pub fn get_return(alias: &Alias) -> (action: Action)
    ensures
        action@ == planned(alias@),
{
    match &alias.alias {
        AliasType::Url(url) => Action::Respond(Response::Redirect(url.clone())),
        AliasType::File(path) => Action::ReadFile(path.clone()),
        AliasType::Text(text) => Action::Respond(Response::Text(text.clone())),
        AliasType::Html(html) => Action::Respond(Response::Html(html.clone())),
        AliasType::External(source) => Action::Fetch(
            External { url: source.url.clone(), headers: source.headers.clone() },
        ),
    }
}

/// The response to a file alias, given the file's text, or `None` where
/// the file could not be read as UTF-8 text.
pub fn file_response(contents: Option<String>) -> (outcome: Result<Response, DispatchError>)
    ensures
        outcome_view(outcome) == (match contents {
            Some(text) => Ok(ResponseView::Text(text@)),
            None => Err(DispatchError::FileRead),
        }),
{
    match contents {
        Some(text) => Ok(Response::Text(text)),
        None => Err(DispatchError::FileRead),
    }
}

/// The response to an answer from another server, given whether its
/// content type parses.
pub fn answered_response(content_type: String, recognized: bool, body: Option<String>) -> (outcome:
    Result<Response, DispatchError>)
    ensures
        outcome_view(outcome) == answered(content_type@, recognized, optional_string(body)),
{
    if !recognized {
        Err(DispatchError::ContentType)
    } else {
        match body {
            Some(body) => Ok(Response::Custom(content_type, body)),
            None => Err(DispatchError::Body),
        }
    }
}

/// The response to an external alias, given what came of the request.
pub fn external_response(fetched: FetchOutcome) -> (outcome: Result<Response, DispatchError>)
    ensures
        outcome_view(outcome) == (match fetched {
            FetchOutcome::Failed => Err(DispatchError::Fetch),
            FetchOutcome::Answered { content_type, body } => answered(
                content_type@,
                content_type_parses(content_type@),
                optional_string(body),
            ),
        }),
{
    match fetched {
        FetchOutcome::Failed => Err(DispatchError::Fetch),
        FetchOutcome::Answered { content_type, body } => {
            let recognized = ContentType::parse_flexible(content_type.as_str()).is_some();
            answered_response(content_type, recognized, body)
        },
    }
}

/// The response that is sent in the end: a failed dispatch becomes a bare
/// 500.
pub fn into_response(outcome: Result<Response, DispatchError>) -> (response: Response)
    ensures
        response@ == (match outcome {
            Ok(served) => served@,
            Err(_) => ResponseView::Status(STATUS_INTERNAL_SERVER_ERROR),
        }),
{
    match outcome {
        Ok(served) => served,
        Err(_) => Response::Status(STATUS_INTERNAL_SERVER_ERROR),
    }
}

/// The action for a request whose path is already percent-decoded.
pub fn get_decoded_page(resolver: &Resolver, decoded_page: &str, user_agent: &UserAgent) -> (action:
    Action)
    ensures
        action@ == page_action(resolver@, decoded_page@, user_agent.0@),
{
    match resolver.resolve_decoded(decoded_page, user_agent.0.as_str()) {
        Some(alias) => get_return(alias),
        None => Action::Respond(Response::Status(STATUS_NOT_FOUND)),
    }
}

/// The action for a request: percent-decodes `page`, resolves it for the
/// client, and plans the answer.
pub fn get_page(resolver: &Resolver, page: &str, user_agent: &UserAgent) -> (action: Action)
    ensures
        action@ == page_action(resolver@, percent_decoded(page@), user_agent.0@),
        !page@.contains('%') ==> action@ == page_action(resolver@, page@, user_agent.0@),
{
    let decoded_page = decode_path(page);
    get_decoded_page(resolver, decoded_page.as_str(), user_agent)
}

/// The action for a request to the root path `/`.
pub fn index(resolver: &Resolver, user_agent: &UserAgent) -> (action: Action)
    ensures
        action@ == page_action(resolver@, seq!['/'], user_agent.0@),
{
    proof {
        reveal_strlit("/");
        assert("/"@ =~= seq!['/']);
    }
    get_page(resolver, "/", user_agent)
}

} // verus!

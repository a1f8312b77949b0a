//! What to answer where no route does.

use crate::utils::str_eq;
use vstd::prelude::*;
use vstd::string::StringExecFns;

verus! {

/// The kind of content an answer carries.
#[derive(Clone, Copy, Debug, PartialEq, Eq, Structural)]
pub enum ContentKind {
    Json,
    Html,
}

/// Whether a request went to the programming interface: the first segment
/// of its path is `api`.
pub open spec fn for_api(segment: Option<Seq<char>>) -> bool {
    segment == Some("api"@)
}

/// What is answered where no route does: to the programming interface a
/// document, to anyone else the page for the case, or a plain line where
/// the page is not to be had.
pub open spec fn fallback(
    segment: Option<Seq<char>>,
    page: Option<Seq<char>>,
    document: Seq<char>,
    line: Seq<char>,
) -> (ContentKind, Seq<char>) {
    if for_api(segment) {
        (ContentKind::Json, document)
    } else {
        match page {
            Some(page) => (ContentKind::Html, page),
            None => (ContentKind::Html, line),
        }
    }
}

/// What an optional text says.
pub open spec fn shown(text: Option<&str>) -> Option<Seq<char>> {
    match text {
        Some(text) => Some(text@),
        None => None,
    }
}

/// What an optional string says.
pub open spec fn held(text: Option<String>) -> Option<Seq<char>> {
    match text {
        Some(text) => Some(text@),
        None => None,
    }
}

/// What is answered where no route does.
fn answer(segment: Option<&str>, page: Option<String>, document: &str, line: &str) -> (body: (
    ContentKind,
    String,
))
    ensures
        (body.0, body.1@) == fallback(shown(segment), held(page), document@, line@),
{
    let api = match segment {
        Some(segment) => str_eq(segment, "api"),
        None => false,
    };
    if api {
        (ContentKind::Json, String::from_str(document))
    } else {
        match page {
            Some(page) => (ContentKind::Html, page),
            None => (ContentKind::Html, String::from_str(line)),
        }
    }
}

/// The answer to a request for what is not there, given the first segment
/// of its path and the page for the case, if it could be opened.
pub fn not_found(segment: Option<&str>, page: Option<String>) -> (body: (ContentKind, String))
    ensures
        (body.0, body.1@) == fallback(
            shown(segment),
            held(page),
            "{\"status\": 404, \"error\": \"Not found\"}"@,
            "404 Not Found"@,
        ),
{
    answer(segment, page, "{\"status\": 404, \"error\": \"Not found\"}", "404 Not Found")
}

/// The answer to a request from nobody known, given the first segment of
/// its path and the page for the case, if it could be opened.
pub fn unauthorized(segment: Option<&str>, page: Option<String>) -> (body: (ContentKind, String))
    ensures
        (body.0, body.1@) == fallback(
            shown(segment),
            held(page),
            "{\"status\": 401, \"error\": \"Unauthorized\"}"@,
            "401 Unauthorized"@,
        ),
{
    answer(segment, page, "{\"status\": 401, \"error\": \"Unauthorized\"}", "401 Unauthorized")
}

} // verus!

//! Where the records of a Hydra server are found: the URLs of its project
//! list, of a jobset's evaluation history and of a build, and the headers
//! that each request carries. URLs are parsed and joined by the `url` crate.

use crate::model::{Jobset, JobsetView};
use crate::response::EndpointError;
use crate::text::{decimal, decimal_text};
use vstd::prelude::*;
use vstd::string::StringExecFns;

verus! {

#[verifier::external_type_specification]
#[verifier::external_body]
pub struct ExUrlParseError(url::ParseError);

/// The text of the URL that `url::Url::parse` reads from `input`, and `None`
/// where it reads none.
pub uninterp spec fn url_parse_text(input: Seq<char>) -> Option<Seq<char>>;

/// The text of the URL that `url::Url::join` gives for the path `path` on the
/// URL written `base`, and `None` where it gives none.
pub uninterp spec fn url_join_text(base: Seq<char>, path: Seq<char>) -> Option<Seq<char>>;

/// Calls `url::Url::parse` and takes the text of the URL. Trusted: the
/// outcome depends on the input alone, and is what `url_parse_text` names.
#[verifier::external_body]
fn url_parse(input: &str) -> (parsed: Result<String, url::ParseError>)
    ensures
        match parsed {
            Ok(text) => url_parse_text(input@) == Some(text@),
            Err(_) => url_parse_text(input@) is None,
        },
{
    match url::Url::parse(input) {
        Ok(url) => Ok(String::from(url)),
        Err(error) => Err(error),
    }
}

/// Reads `base` with `url::Url::parse`, calls `url::Url::join` on it with
/// `path`, and takes the text of the URL. Trusted: the outcome depends on the
/// two texts alone, and is what `url_join_text` names; a base that cannot be
/// read gives an error.
#[verifier::external_body]
fn url_join(base: &str, path: &str) -> (joined: Result<String, url::ParseError>)
    ensures
        match joined {
            Ok(text) => url_join_text(base@, path@) == Some(text@),
            Err(_) => url_join_text(base@, path@) is None,
        },
{
    match url::Url::parse(base) {
        Ok(url) => match url.join(path) {
            Ok(joined) => Ok(String::from(joined)),
            Err(error) => Err(error),
        },
        Err(error) => Err(error),
    }
}

/// Calls `to_string` on a `url::ParseError`, which formats it by its
/// `Display`. Nothing is claimed of the text.
#[verifier::external_body]
fn url_error_text(error: &url::ParseError) -> (text: String) {
    error.to_string()
}

/// The path of a jobset's evaluation history, relative to the base URL.
pub open spec fn evaluations_path_view(jobset: JobsetView) -> Seq<char> {
    "jobset/"@ + jobset.project + "/"@ + jobset.name + "/evals"@
}

/// The path of a build, relative to the base URL.
pub open spec fn build_path_view(build: int) -> Seq<char> {
    "build/"@ + decimal(build)
}

/// What joining `path` to `base` comes to: the joined URL, or the error kind
/// of a URL that cannot be formed.
pub open spec fn joins_to(base: Seq<char>, path: Seq<char>, joined: Result<String, EndpointError>) -> bool {
    match joined {
        Ok(url) => url_join_text(base, path) == Some(url@),
        Err(error) => url_join_text(base, path) is None && error is UrlParse,
    }
}

/// Reads a base URL and gives it back in its normal form. Fails with
/// [`EndpointError::UrlParse`] exactly when the text is no URL.
pub fn parse_base(input: &str) -> (parsed: Result<String, EndpointError>)
    ensures
        match parsed {
            Ok(url) => url_parse_text(input@) == Some(url@),
            Err(error) => url_parse_text(input@) is None && error is UrlParse,
        },
{
    match url_parse(input) {
        Ok(url) => Ok(url),
        Err(error) => Err(EndpointError::UrlParse(url_error_text(&error))),
    }
}

/// Joins a relative path to a base URL. Fails with
/// [`EndpointError::UrlParse`] exactly when the two form no URL.
pub fn join(base: &str, path: &str) -> (joined: Result<String, EndpointError>)
    ensures
        joins_to(base@, path@, joined),
{
    match url_join(base, path) {
        Ok(url) => Ok(url),
        Err(error) => Err(EndpointError::UrlParse(url_error_text(&error))),
    }
}

/// The path `jobset/{project}/{name}/evals` of a jobset's evaluation history.
pub fn evaluations_path(jobset: &Jobset) -> (path: String)
    ensures
        path@ == evaluations_path_view(jobset.deep_view()),
{
    let mut path = String::from_str("jobset/");
    path.append(jobset.project.as_str());
    path.append("/");
    path.append(jobset.name.as_str());
    path.append("/evals");
    path
}

/// The path `build/{id}` of a build.
pub fn build_path(build: i32) -> (path: String)
    ensures
        path@ == build_path_view(build as int),
{
    let mut path = String::from_str("build/");
    let id = decimal_text(build);
    path.append(id.as_str());
    path
}

/// The URL of a jobset's evaluation history on the server at `base`.
pub fn evaluations_url(base: &str, jobset: &Jobset) -> (url: Result<String, EndpointError>)
    ensures
        joins_to(base@, evaluations_path_view(jobset.deep_view()), url),
{
    let path = evaluations_path(jobset);
    join(base, path.as_str())
}

/// The URL of a build on the server at `base`.
pub fn build_url(base: &str, build: i32) -> (url: Result<String, EndpointError>)
    ensures
        joins_to(base@, build_path_view(build as int), url),
{
    let path = build_path(build);
    join(base, path.as_str())
}

/// The headers of every request, as pairs of name and value: the server is
/// asked for JSON, and the client names itself.
pub open spec fn headers_view() -> Seq<(Seq<char>, Seq<char>)> {
    seq![("accept"@, "application/json"@), ("user-agent"@, "hydra-shields-endpoint"@)]
}

/// The headers of every request, as pairs of name and value.
pub fn headers() -> (pairs: Vec<(String, String)>)
    ensures
        pairs.deep_view() == headers_view(),
{
    let mut pairs: Vec<(String, String)> = Vec::new();
    pairs.push((String::from_str("accept"), String::from_str("application/json")));
    pairs.push((String::from_str("user-agent"), String::from_str("hydra-shields-endpoint")));
    assert(pairs.deep_view() =~= headers_view());
    pairs
}

} // verus!

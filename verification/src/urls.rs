use vstd::prelude::*;

use crate::error::{spec_url_error_kind, AppError, UrlParseError};

verus! {

/// `url::Url`: a parsed absolute URL.
#[verifier::external_type_specification]
#[verifier::external_body]
pub struct ExUrl(url::Url);

/// An absolute URL, kept together with its serialization.
///
/// Its view is the serialization. `url::Url` values compare by their
/// serialization alone, so the view determines the URL.
pub struct WebUrl {
    url: url::Url,
    text: String,
}

impl View for WebUrl {
    type V = Seq<char>;

    closed spec fn view(&self) -> Seq<char> {
        self.text@
    }
}

/// Calls `Clone::clone` on `url::Url` (a derived clone, copying every field).
/// Nothing is stated of the result: the copy's serialization is tracked beside it.
#[verifier::external_body]
fn url_clone(url: &url::Url) -> url::Url {
    url.clone()
}

impl Clone for WebUrl {
    fn clone(&self) -> (res: Self)
        ensures
            res@ == self@,
    {
        WebUrl { url: url_clone(&self.url), text: self.text.clone() }
    }
}

impl WebUrl {
    /// The parsed URL that this value holds; its serialization is the view.
    pub closed spec fn parsed(&self) -> url::Url {
        self.url
    }

    /// The serialization of the URL.
    pub fn as_str(&self) -> (res: &str)
        ensures
            res@ == self@,
    {
        self.text.as_str()
    }

    /// The parsed URL, for the HTTP client.
    pub fn url(&self) -> (res: &url::Url)
        ensures
            *res == self.parsed(),
    {
        &self.url
    }
}

/// What `url::Url::parse` gives for `input`: the serialization of the URL it
/// reads, or the kind of its failure.
pub uninterp spec fn spec_url_parse(input: Seq<char>) -> Result<Seq<char>, UrlParseError>;

/// What `url::Url::join` of `input` onto the URL serialized as `base` gives:
/// the serialization of the joined URL, or the kind of its failure.
pub uninterp spec fn spec_url_join(base: Seq<char>, input: Seq<char>) -> Result<
    Seq<char>,
    UrlParseError,
>;

/// Serialization of the URL serialized as `url` after `pop` on its path
/// segments (the last segment is removed); `None` when the URL cannot be a base.
pub uninterp spec fn spec_url_pop_segment(url: Seq<char>) -> Option<Seq<char>>;

/// Serialization of the URL serialized as `url` after `push(segment)` on its
/// path segments (the segment is percent-encoded and appended); `None` when the
/// URL cannot be a base.
pub uninterp spec fn spec_url_push_segment(url: Seq<char>, segment: Seq<char>) -> Option<
    Seq<char>,
>;

/// Calls `url::Url::parse`. Claims that the result is the URL, or the failure
/// kind, that `spec_url_parse` names for `input`.
#[verifier::external_body]
fn url_parse(input: &str) -> (res: Result<WebUrl, url::ParseError>)
    ensures
        match res {
            Ok(u) => spec_url_parse(input@) == Ok::<Seq<char>, UrlParseError>(u@),
            Err(e) => spec_url_parse(input@) == Err::<Seq<char>, UrlParseError>(
                spec_url_error_kind(e),
            ),
        },
{
    match url::Url::parse(input) {
        Ok(url) => {
            let text = String::from(url.as_str());
            Ok(WebUrl { url, text })
        },
        Err(e) => Err(e),
    }
}

/// Calls `url::Url::join` on the parsed `base`. Claims that the result is the
/// URL, or the failure kind, that `spec_url_join` names for the serialization of
/// `base` and `input`.
#[verifier::external_body]
fn url_join(base: &WebUrl, input: &str) -> (res: Result<WebUrl, url::ParseError>)
    ensures
        match res {
            Ok(u) => spec_url_join(base@, input@) == Ok::<Seq<char>, UrlParseError>(u@),
            Err(e) => spec_url_join(base@, input@) == Err::<Seq<char>, UrlParseError>(
                spec_url_error_kind(e),
            ),
        },
{
    match base.url.join(input) {
        Ok(url) => {
            let text = String::from(url.as_str());
            Ok(WebUrl { url, text })
        },
        Err(e) => Err(e),
    }
}

/// Calls `pop` on the path segments of the URL (`url::Url::path_segments_mut`).
/// Claims that the result is `None` exactly when `spec_url_pop_segment` is, and
/// otherwise the URL it names.
#[verifier::external_body]
fn url_pop_segment(url: WebUrl) -> (res: Option<WebUrl>)
    ensures
        res is Some <==> spec_url_pop_segment(url@) is Some,
        res matches Some(u) ==> spec_url_pop_segment(url@) == Some(u@),
{
    let mut edited = url.url;
    match edited.path_segments_mut() {
        Ok(mut segments) => {
            segments.pop();
        },
        Err(()) => {
            return None;
        },
    }
    let text = String::from(edited.as_str());
    Some(WebUrl { url: edited, text })
}

/// Calls `push(segment)` on the path segments of the URL
/// (`url::Url::path_segments_mut`). Claims that the result is `None` exactly
/// when `spec_url_push_segment` is, and otherwise the URL it names.
#[verifier::external_body]
fn url_push_segment(url: WebUrl, segment: &str) -> (res: Option<WebUrl>)
    ensures
        res is Some <==> spec_url_push_segment(url@, segment@) is Some,
        res matches Some(u) ==> spec_url_push_segment(url@, segment@) == Some(u@),
{
    let mut edited = url.url;
    match edited.path_segments_mut() {
        Ok(mut segments) => {
            segments.push(segment);
        },
        Err(()) => {
            return None;
        },
    }
    let text = String::from(edited.as_str());
    Some(WebUrl { url: edited, text })
}

/// Reads the absolute URL that `input` denotes.
pub fn parse_url(input: &str) -> (res: Result<WebUrl, AppError>)
    ensures
        match res {
            Ok(u) => spec_url_parse(input@) == Ok::<Seq<char>, UrlParseError>(u@),
            Err(AppError::UrlError(e)) => spec_url_parse(input@) == Err::<Seq<char>, UrlParseError>(
                spec_url_error_kind(e),
            ),
            Err(_) => false,
        },
{
    match url_parse(input) {
        Ok(u) => Ok(u),
        Err(e) => Err(AppError::UrlError(e)),
    }
}

/// Resolves `reference` (a URI of a playlist) against `base`.
pub fn join_url(base: &WebUrl, reference: &str) -> (res: Result<WebUrl, AppError>)
    ensures
        match res {
            Ok(u) => spec_url_join(base@, reference@) == Ok::<Seq<char>, UrlParseError>(u@),
            Err(AppError::UrlError(e)) => spec_url_join(base@, reference@) == Err::<
                Seq<char>,
                UrlParseError,
            >(spec_url_error_kind(e)),
            Err(_) => false,
        },
{
    match url_join(base, reference) {
        Ok(u) => Ok(u),
        Err(e) => Err(AppError::UrlError(e)),
    }
}

/// Serialization of the base URL that the master playlist URL serialized as
/// `url` gives: its last path segment (the playlist file) popped, then a
/// segment "/" pushed; `None` when either edit finds no path segments.
pub open spec fn spec_base_url(url: Seq<char>) -> Option<Seq<char>> {
    match spec_url_pop_segment(url) {
        Some(popped) => spec_url_push_segment(popped, "/"@),
        None => None,
    }
}

/// For every URL, whatever its scheme or text, the base URL is the URL with
/// its last path segment popped and then a segment "/" pushed, and there is
/// none when either edit finds no path segments.
pub proof fn lemma_base_url_pops_then_pushes(url: Seq<char>)
    ensures
        spec_base_url(url) == match spec_url_pop_segment(url) {
            Some(popped) => spec_url_push_segment(popped, "/"@),
            None => None::<Seq<char>>,
        },
{
}

/// The base URL for the requests of a stream: the master playlist URL whose
/// last path segment (the playlist file) is replaced by a segment "/".
pub fn base_url_from_master_playlist_url(url: WebUrl) -> (res: Result<WebUrl, AppError>)
    ensures
        res is Ok <==> spec_base_url(url@) is Some,
        res matches Ok(u) ==> spec_base_url(url@) == Some(u@),
        res matches Err(e) ==> e is EmptyUrlSegmentsError,
        match spec_url_pop_segment(url@) {
            Some(popped) => match spec_url_push_segment(popped, "/"@) {
                Some(pushed) => res matches Ok(u) && u@ == pushed,
                None => res is Err,
            },
            None => res is Err,
        },
{
    let popped = match url_pop_segment(url) {
        Some(u) => u,
        None => {
            return Err(AppError::EmptyUrlSegmentsError);
        },
    };
    match url_push_segment(popped, "/") {
        Some(u) => Ok(u),
        None => Err(AppError::EmptyUrlSegmentsError),
    }
}

} // verus!

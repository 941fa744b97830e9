//! Module specifiers as the host resolves them: what was resolved, against what,
//! and to what URL or error.
use vstd::prelude::*;

verus! {

/// A module specifier the host resolved: as a URL or file path (`base` absent), or
/// as an import from the module at `base`; the result is the resolved URL or the
/// error's message.
pub struct Resolution {
    pub specifier: String,
    pub base: Option<String>,
    pub result: Result<String, String>,
}

/// An optional string, taken by its characters.
pub open spec fn text_option(o: Option<String>) -> Option<Seq<char>> {
    match o {
        Some(t) => Some(t@),
        None => None,
    }
}

/// A result whose success and failure are strings, taken by their characters.
pub open spec fn text_result(r: Result<String, String>) -> Result<Seq<char>, Seq<char>> {
    match r {
        Ok(t) => Ok(t@),
        Err(e) => Err(e@),
    }
}

/// `r` is the resolution of `specifier` against `base`.
pub open spec fn resolution_of(r: Resolution, specifier: Seq<char>, base: Option<Seq<char>>) -> bool {
    r.specifier@ == specifier && text_option(r.base) == base
}

/// What a resolution gave, as text.
pub open spec fn resolved(r: Resolution) -> Result<Seq<char>, Seq<char>> {
    text_result(r.result)
}

/// What url's `Url::to_file_path` gives for the URL written as `url` (read by
/// `Url::parse`): the local path, as text, or nothing.
pub uninterp spec fn url_file_path(url: Seq<char>) -> Option<Seq<char>>;

/// The local file path that the URL written as `url` names, by url's `Url::parse`
/// and `Url::to_file_path`. Its contract claims only that the result depends on the
/// URL's text alone (named `url_file_path`). url documents that it gives none where
/// the host is neither empty nor `localhost` (Windows allows other hosts); a URL
/// that does not parse, and a path that is not valid UTF-8, give nothing too.
#[verifier::external_body]
pub(crate) fn file_path_of(url: &str) -> (r: Option<String>)
    ensures
        text_option(r) == url_file_path(url@),
{
    match url::Url::parse(url) {
        Ok(u) => match u.to_file_path() {
            Ok(p) => p.to_str().map(|t| t.to_string()),
            Err(()) => None,
        },
        Err(_) => None,
    }
}

} // verus!

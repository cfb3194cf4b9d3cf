//! Resolving an "open" URL handed over by the operating system into a plain
//! filesystem path.

use url::Url;
use vstd::prelude::*;

verus! {

/// Scheme of the URLs that a file manager hands over for local files.
pub const FILE_SCHEME: &'static str = "file";

/// Name of the query parameter that carries the path in a custom-scheme link.
pub const PATH_KEY: &'static str = "path";

/// What the resolver reads of one URL, as plain values.
pub struct OpenUrl {
    /// The URL's scheme, without the ':' delimiter.
    pub scheme: String,
    /// The decoded local path of a `file` URL; `None` when decoding failed or
    /// the scheme is another one.
    pub file_path: Option<String>,
    /// The decoded query (key, value) pairs, in order.
    pub query: Vec<(String, String)>,
}

/// The value of the first pair whose key is `key`.
pub open spec fn first_value(pairs: Seq<(String, String)>, key: Seq<char>) -> Option<String>
    decreases pairs.len(),
{
    if pairs.len() == 0 {
        None
    } else if pairs[0].0@ == key {
        Some(pairs[0].1)
    } else {
        first_value(pairs.drop_first(), key)
    }
}

/// The path that URL `u` resolves to, where `custom` is the application's
/// own scheme.
pub open spec fn resolution(u: OpenUrl, custom: Seq<char>) -> Option<String> {
    if u.scheme@ == FILE_SCHEME@ {
        u.file_path
    } else if u.scheme@ == custom {
        first_value(u.query@, PATH_KEY@)
    } else {
        None
    }
}

/// The paths that a list of URLs resolves to, in order; URLs that resolve to
/// nothing are left out.
pub open spec fn resolved_paths(urls: Seq<OpenUrl>, custom: Seq<char>) -> Seq<String>
    decreases urls.len(),
{
    if urls.len() == 0 {
        Seq::empty()
    } else {
        let rest = resolved_paths(urls.drop_last(), custom);
        match resolution(urls.last(), custom) {
            Some(p) => rest.push(p),
            None => rest,
        }
    }
}

// Whether `url::Url::parse` accepts the text.
pub uninterp spec fn is_url(text: Seq<char>) -> bool;

// The scheme of the URL that the text parses to.
pub uninterp spec fn scheme_of(text: Seq<char>) -> Seq<char>;

// The local path of the URL that the text parses to, percent-decoded and read
// as text; `None` where the URL names no local path.
pub uninterp spec fn file_path_of(text: Seq<char>) -> Option<Seq<char>>;

// The decoded query (key, value) pairs of the URL that the text parses to.
pub uninterp spec fn query_of(text: Seq<char>) -> Seq<(Seq<char>, Seq<char>)>;

/// Relies on url::Url::parse: whether `text` is a URL.
#[verifier::external_body]
fn url_parses(text: &str) -> (r: bool)
    ensures
        r == is_url(text@),
{
    Url::parse(text).is_ok()
}

/// Relies on url::Url::parse, then url::Url::scheme: the scheme, lower-cased,
/// without the ':'.
#[verifier::external_body]
fn url_scheme(text: &str) -> (r: String)
    requires
        is_url(text@),
    ensures
        r@ == scheme_of(text@),
{
    match Url::parse(text) {
        Ok(u) => u.scheme().to_string(),
        Err(_) => String::new(),
    }
}

/// Relies on url::Url::parse, then url::Url::to_file_path: the percent-decoded
/// local path, or nothing for a non-local host or a path that cannot be one.
#[verifier::external_body]
fn url_file_path(text: &str) -> (r: Option<String>)
    requires
        is_url(text@),
    ensures
        r is Some <==> file_path_of(text@) is Some,
        r is Some ==> r->0@ == file_path_of(text@)->0,
{
    match Url::parse(text) {
        Ok(u) => u.to_file_path().ok().map(|p| p.to_string_lossy().into_owned()),
        Err(_) => None,
    }
}

/// Relies on url::Url::parse, then url::Url::query_pairs: the query, parsed as
/// `application/x-www-form-urlencoded`, as owned (key, value) pairs in order.
#[verifier::external_body]
fn url_query_pairs(text: &str) -> (r: Vec<(String, String)>)
    requires
        is_url(text@),
    ensures
        r@.len() == query_of(text@).len(),
        forall|i: int|
            0 <= i < r@.len() ==> #[trigger] r@[i].0@ == query_of(text@)[i].0 && r@[i].1@
                == query_of(text@)[i].1,
{
    match Url::parse(text) {
        Ok(u) => u.query_pairs().map(|(k, v)| (k.into_owned(), v.into_owned())).collect(),
        Err(_) => Vec::new(),
    }
}

/// `u` holds what resolution reads of the URL written as `text`: its scheme,
/// its decoded local path when the scheme is `file` (none otherwise) and its
/// query pairs.
pub open spec fn describes(u: OpenUrl, text: Seq<char>) -> bool {
    &&& u.scheme@ == scheme_of(text)
    &&& if scheme_of(text) == FILE_SCHEME@ {
        &&& (u.file_path is Some <==> file_path_of(text) is Some)
        &&& u.file_path is Some ==> u.file_path->0@ == file_path_of(text)->0
    } else {
        u.file_path is None
    }
    &&& u.query@.len() == query_of(text).len()
    &&& forall|i: int|
        0 <= i < u.query@.len() ==> #[trigger] u.query@[i].0@ == query_of(text)[i].0
            && u.query@[i].1@ == query_of(text)[i].1
}

fn same_text(a: &str, b: &str) -> (r: bool)
    ensures
        r == (a@ == b@),
{
    a.to_owned() == b.to_owned()
}

impl OpenUrl {
    /// Reads what resolution needs out of the URL written as `text`; nothing
    /// when `text` is not a URL. The local path is decoded only for a `file`
    /// URL.
    pub fn parse(text: &str) -> (r: Option<OpenUrl>)
        ensures
            r is Some <==> is_url(text@),
            r is Some ==> describes(r->0, text@),
    {
        if !url_parses(text) {
            return None;
        }
        let scheme = url_scheme(text);
        let file_path = if same_text(scheme.as_str(), FILE_SCHEME) {
            url_file_path(text)
        } else {
            None
        };
        let query = url_query_pairs(text);
        Some(OpenUrl { scheme, file_path, query })
    }

    /// The path this URL asks to open: the decoded path of a `file` URL, the
    /// first `path` query value of a URL in the `custom` scheme, and nothing
    /// for any other scheme.
    pub fn resolve(&self, custom: &str) -> (r: Option<String>)
        ensures
            r == resolution(*self, custom@),
    {
        if same_text(self.scheme.as_str(), FILE_SCHEME) {
            self.file_path.clone()
        } else if same_text(self.scheme.as_str(), custom) {
            find_value(&self.query, PATH_KEY)
        } else {
            None
        }
    }
}

/// The value of the first pair in `pairs` whose key is `key`.
pub fn find_value(pairs: &Vec<(String, String)>, key: &str) -> (r: Option<String>)
    ensures
        r == first_value(pairs@, key@),
{
    let mut i: usize = 0;
    assert(pairs@.skip(0) =~= pairs@);
    while i < pairs.len()
        invariant
            0 <= i <= pairs.len(),
            first_value(pairs@, key@) == first_value(pairs@.skip(i as int), key@),
        decreases pairs.len() - i,
    {
        if same_text(pairs[i].0.as_str(), key) {
            return Some(pairs[i].1.clone());
        }
        assert(pairs@.skip(i as int).drop_first() =~= pairs@.skip(i + 1));
        i = i + 1;
    }
    assert(pairs@.skip(i as int) =~= Seq::<(String, String)>::empty());
    None
}

/// The paths that `urls` resolve to, in order, skipping those that resolve
/// to nothing.
pub fn resolve_all(urls: &Vec<OpenUrl>, custom: &str) -> (r: Vec<String>)
    ensures
        r@ == resolved_paths(urls@, custom@),
{
    let mut paths: Vec<String> = Vec::new();
    let mut i: usize = 0;
    while i < urls.len()
        invariant
            0 <= i <= urls.len(),
            paths@ == resolved_paths(urls@.take(i as int), custom@),
        decreases urls.len() - i,
    {
        assert(urls@.take(i + 1).drop_last() =~= urls@.take(i as int));
        if let Some(p) = urls[i].resolve(custom) {
            paths.push(p);
        }
        i = i + 1;
    }
    assert(urls@.take(urls.len() as int) =~= urls@);
    paths
}

/// When no pair has key `key`, there is no value for it.
pub proof fn lemma_first_value_absent(pairs: Seq<(String, String)>, key: Seq<char>)
    requires
        forall|j: int| 0 <= j < pairs.len() ==> pairs[j].0@ != key,
    ensures
        first_value(pairs, key) is None,
    decreases pairs.len(),
{
    if pairs.len() > 0 {
        assert(pairs[0].0@ != key);
        lemma_first_value_absent(pairs.drop_first(), key);
    }
}

/// The value for `key` is the one of the first pair that has that key.
pub proof fn lemma_first_value_at(pairs: Seq<(String, String)>, key: Seq<char>, i: int)
    requires
        0 <= i < pairs.len(),
        pairs[i].0@ == key,
        forall|j: int| 0 <= j < i ==> pairs[j].0@ != key,
    ensures
        first_value(pairs, key) == Some(pairs[i].1),
    decreases i,
{
    if i > 0 {
        assert(pairs[0].0@ != key);
        lemma_first_value_at(pairs.drop_first(), key, i - 1);
    }
}

/// A `file` URL resolves to its decoded local path, and to nothing when that
/// path could not be decoded.
pub proof fn file_url_resolves_to_its_path(u: OpenUrl, custom: Seq<char>)
    requires
        u.scheme@ == FILE_SCHEME@,
    ensures
        resolution(u, custom) == u.file_path,
{
}

/// The URL written as `text`, when its scheme is `file`, resolves to its
/// decoded local path, and to nothing when it names none.
pub proof fn file_text_resolves_to_its_path(u: OpenUrl, text: Seq<char>, custom: Seq<char>)
    requires
        describes(u, text),
        scheme_of(text) == FILE_SCHEME@,
    ensures
        resolution(u, custom) is Some <==> file_path_of(text) is Some,
        resolution(u, custom) is Some ==> resolution(u, custom)->0@ == file_path_of(text)->0,
{
}

/// A URL in the application's own scheme resolves to the value of its first
/// `path` query parameter, and to nothing when it has none.
pub proof fn custom_url_resolves_to_path_parameter(u: OpenUrl, custom: Seq<char>)
    requires
        u.scheme@ == custom,
        custom != FILE_SCHEME@,
    ensures
        forall|i: int|
            0 <= i < u.query@.len() && u.query@[i].0@ == PATH_KEY@ && (forall|j: int|
                0 <= j < i ==> u.query@[j].0@ != PATH_KEY@) ==> resolution(u, custom) == Some(
                u.query@[i].1,
            ),
        (forall|i: int| 0 <= i < u.query@.len() ==> u.query@[i].0@ != PATH_KEY@) ==> resolution(
            u,
            custom,
        ) is None,
{
    assert forall|i: int|
        0 <= i < u.query@.len() && u.query@[i].0@ == PATH_KEY@ && (forall|j: int|
            0 <= j < i ==> u.query@[j].0@ != PATH_KEY@) implies resolution(u, custom) == Some(
        u.query@[i].1,
    ) by {
        lemma_first_value_at(u.query@, PATH_KEY@, i);
    }
    if forall|i: int| 0 <= i < u.query@.len() ==> u.query@[i].0@ != PATH_KEY@ {
        lemma_first_value_absent(u.query@, PATH_KEY@);
    }
}

/// A URL in any scheme other than `file` and the application's own resolves
/// to nothing.
pub proof fn other_schemes_resolve_to_nothing(u: OpenUrl, custom: Seq<char>)
    requires
        u.scheme@ != FILE_SCHEME@,
        u.scheme@ != custom,
    ensures
        resolution(u, custom) is None,
{
}

} // verus!

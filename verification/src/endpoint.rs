//! Parsing the target endpoint into a cluster address and an index name.
//!
//! The resource locator itself is parsed by an outside crate; the engine's
//! own rules — which schemes are acceptable, how the index name is derived
//! from the path, what the defaults are — are stated and proved here.

use vstd::prelude::*;
use crate::errors::ExportError;

verus! {

/// The alias the remote engine uses for "all indices", chosen when the
/// endpoint's path names no index.
pub const ALL_INDICES_ALIAS: &'static str = "_all";

/// The plain components of a parsed endpoint: its scheme, whether it has a
/// host, its path, and the text of the resource with the path cleared.
pub struct UrlParts {
    pub scheme: String,
    pub has_host: bool,
    pub path: String,
    pub base: String,
}

/// What parsing an endpoint yields: nothing when the text is not a valid
/// resource locator, else its scheme, whether it has a host, its path, and
/// its text with the path cleared.
pub uninterp spec fn parsed_url(s: Seq<char>) -> Option<(Seq<char>, bool, Seq<char>, Seq<char>)>;

/// Relies on url::Url::parse and the accessors scheme, has_host, path,
/// set_path and as_str: each is a function of the source text alone.
#[verifier::external_body]
fn split_url(source: &str) -> (r: Option<UrlParts>)
    ensures
        (r is Some) <==> (parsed_url(source@) is Some),
        r matches Some(p) ==> parsed_url(source@) == Some(
            (p.scheme@, p.has_host, p.path@, p.base@),
        ),
{
    let mut u = match url::Url::parse(source) {
        Ok(u) => u,
        Err(_) => return None,
    };
    let scheme = u.scheme().to_owned();
    let has_host = u.has_host();
    let path = u.path().to_owned();
    u.set_path("");
    let base = u.as_str().to_owned();
    Some(UrlParts { scheme, has_host, path, base })
}

/// The text with every leading slash removed.
pub open spec fn trim_leading_slashes(s: Seq<char>) -> Seq<char>
    decreases s.len(),
{
    if s.len() > 0 && s[0] == '/' {
        trim_leading_slashes(s.skip(1))
    } else {
        s
    }
}

/// The text with every trailing slash removed.
pub open spec fn trim_trailing_slashes(s: Seq<char>) -> Seq<char>
    decreases s.len(),
{
    if s.len() > 0 && s.last() == '/' {
        trim_trailing_slashes(s.drop_last())
    } else {
        s
    }
}

/// The index name an endpoint path selects: the path with its leading
/// slashes trimmed, or the "all indices" alias when nothing remains.
pub open spec fn spec_index_from_path(path: Seq<char>) -> Seq<char> {
    if trim_leading_slashes(path).len() == 0 {
        ALL_INDICES_ALIAS@
    } else {
        trim_leading_slashes(path)
    }
}

proof fn lemma_trim_leading_at(s: Seq<char>, i: int)
    requires
        0 <= i <= s.len(),
        forall|j: int| 0 <= j < i ==> s[j] == '/',
        i < s.len() ==> s[i] != '/',
    ensures
        trim_leading_slashes(s) == s.skip(i),
    decreases i,
{
    if i == 0 {
        assert(s.skip(0) =~= s);
    } else {
        assert(s[0] == '/');
        lemma_trim_leading_at(s.skip(1), i - 1);
        assert(s.skip(1).skip(i - 1) =~= s.skip(i));
    }
}

proof fn lemma_trim_trailing_at(s: Seq<char>, j: int)
    requires
        0 <= j <= s.len(),
        forall|k: int| j <= k < s.len() ==> s[k] == '/',
        j > 0 ==> s[j - 1] != '/',
    ensures
        trim_trailing_slashes(s) == s.take(j),
    decreases s.len() - j,
{
    if j == s.len() {
        assert(s.take(j) =~= s);
    } else {
        assert(s.last() == '/');
        lemma_trim_trailing_at(s.drop_last(), j);
        assert(s.drop_last().take(j) =~= s.take(j));
    }
}

/// Derives the index name from an endpoint path: the path with its leading
/// slashes trimmed, defaulting to the "all indices" alias when the path is
/// empty, so the result is never empty.
pub fn index_from_path(path: &str) -> (r: String)
    ensures
        r@ == spec_index_from_path(path@),
        r@.len() > 0,
{
    let n = path.unicode_len();
    let mut i: usize = 0;
    while i < n && path.get_char(i) == '/'
        invariant
            0 <= i <= n,
            n == path@.len(),
            forall|j: int| 0 <= j < i ==> path@[j] == '/',
        decreases n - i,
    {
        i = i + 1;
    }
    proof {
        lemma_trim_leading_at(path@, i as int);
    }
    let trimmed = path.substring_char(i, n);
    if trimmed.unicode_len() == 0 {
        proof {
            reveal_strlit("_all");
        }
        ALL_INDICES_ALIAS.to_owned()
    } else {
        trimmed.to_owned()
    }
}

/// Removes the trailing slashes the resource text keeps once its path is
/// cleared, leaving the bare cluster address.
fn trim_trailing(s: &str) -> (r: String)
    ensures
        r@ == trim_trailing_slashes(s@),
{
    let n = s.unicode_len();
    let mut j: usize = n;
    while j > 0 && s.get_char(j - 1) == '/'
        invariant
            0 <= j <= n,
            n == s@.len(),
            forall|k: int| j <= k < n ==> s@[k] == '/',
        decreases j,
    {
        j = j - 1;
    }
    proof {
        lemma_trim_trailing_at(s@, j as int);
    }
    let kept = s.substring_char(0, j);
    kept.to_owned()
}

/// Parses the target endpoint into a cluster address and an index name.
///
/// Fails when the text is not a valid resource locator, when it has no host,
/// or when its scheme is neither http nor https. The cluster address is the
/// resource with path cleared and trailing slashes trimmed; the index name is
/// the path with leading slashes trimmed, defaulting to the "all indices"
/// alias when the path is empty.
pub fn parse_cluster_info(source: &str) -> (r: Result<(String, String), ExportError>)
    ensures
        parsed_url(source@) is None ==> (r matches Err(ExportError::Config(_))),
        parsed_url(source@) matches Some(u) ==> {
            let accepted = u.1 && (u.0 == "http"@ || u.0 == "https"@);
            &&& (!accepted ==> (r matches Err(ExportError::Config(_))))
            &&& (accepted ==> (r matches Ok(pair) && pair.0@ == trim_trailing_slashes(u.3)
                && pair.1@ == spec_index_from_path(u.2)))
        },
{
    match split_url(source) {
        None => Err(ExportError::Config("the endpoint is not a valid resource locator".to_owned())),
        Some(parts) => {
            let http: String = "http".to_owned();
            let https: String = "https".to_owned();
            let accepted = parts.has_host && (parts.scheme == http || parts.scheme == https);
            if !accepted {
                Err(ExportError::Config("the endpoint needs a host and an http or https scheme".to_owned()))
            } else {
                let host = trim_trailing(parts.base.as_str());
                let index = index_from_path(parts.path.as_str());
                Ok((host, index))
            }
        },
    }
}

} // verus!

//! Small path-text helpers: the `/cd` argument, `file:` links and markdown
//! line anchors.

use vstd::prelude::*;
use vstd::string::*;
use crate::outside::{
    parse_url, percent_decode, percent_decoded, url_fragment, url_fragment_of, url_host, url_host_of,
    url_parses, url_path, url_path_of, url_query, url_query_of, url_scheme, url_scheme_of,
};
use crate::text::{chars_between, find_char, first_index, join3, owned, str_chars, str_contains_char, string_from_chars, trim_spec, trim_str};
use crate::validation::str_eq;

verus! {

/// `path` without one pair of matching surrounding quotes (`"…"` or `'…'`).
pub open spec fn strip_quotes_spec(path: Seq<char>) -> Seq<char> {
    if path.len() >= 2 && ((path[0] == '"' && path.last() == '"') || (path[0] == '\'' && path.last()
        == '\'')) {
        path.subrange(1, path.len() - 1)
    } else {
        path
    }
}

/// `path` without one pair of matching surrounding quotes (`"…"` or `'…'`).
pub fn strip_matching_path_quotes(path: &str) -> (r: &str)
    ensures
        r@ == strip_quotes_spec(path@),
{
    let chars = str_chars(path);
    let n = chars.len();
    if n >= 2 && ((chars[0] == '"' && chars[n - 1] == '"') || (chars[0] == '\'' && chars[n - 1]
        == '\'')) {
        path.substring_char(1, n - 1)
    } else {
        path
    }
}

/// A markdown location point `L<line>` or `L<line>C<column>` as
/// `<line>` or `<line>:<column>`.
pub open spec fn location_point(p: Seq<char>) -> Option<Seq<char>> {
    if p.len() > 0 && p[0] == 'L' {
        let q = p.skip(1);
        match first_index(q, 'C') {
            Some(i) => Some(q.take(i) + seq![':'] + q.skip(i + 1)),
            None => Some(q),
        }
    } else {
        None
    }
}

/// A markdown hash location suffix (`#L10`, `#L10C2`, `#L10-L12`,
/// `#L10C2-L12C4`) as a `:line[:column][-line[:column]]` suffix.
pub open spec fn hash_location_spec(suffix: Seq<char>) -> Option<Seq<char>> {
    if suffix.len() > 0 && suffix[0] == '#' {
        let fragment = suffix.skip(1);
        match first_index(fragment, '-') {
            Some(i) => match (location_point(fragment.take(i)), location_point(fragment.skip(i + 1))) {
                (Some(a), Some(b)) => Some(seq![':'] + a + seq!['-'] + b),
                _ => None,
            },
            None => match location_point(fragment) {
                Some(a) => Some(seq![':'] + a),
                None => None,
            },
        }
    } else {
        None
    }
}

fn point(p: &Vec<char>) -> (r: Option<Vec<char>>)
    ensures
        match r {
            Some(v) => location_point(p@) == Some(v@),
            None => location_point(p@) is None,
        },
{
    if p.len() == 0 || p[0] != 'L' {
        return None;
    }
    let q = chars_between(p, 1, p.len());
    proof {
        assert(q@ =~= p@.skip(1));
    }
    match find_char(&q, 'C') {
        Some(i) => {
            let mut out = chars_between(&q, 0, i);
            out.push(':');
            let rest = chars_between(&q, i + 1, q.len());
            let mut j: usize = 0;
            let ghost head = out@;
            while j < rest.len()
                invariant
                    0 <= j <= rest@.len(),
                    out@ == head + rest@.take(j as int),
                decreases rest@.len() - j,
            {
                out.push(rest[j]);
                proof {
                    assert(head + rest@.take(j as int) + seq![rest@[j as int]] =~= head + rest@.take(j + 1));
                }
                j = j + 1;
            }
            proof {
                assert(rest@.take(rest@.len() as int) =~= rest@);
                assert(q@.subrange(0, i as int) =~= q@.take(i as int));
                assert(q@.subrange(i + 1, q@.len() as int) =~= q@.skip(i + 1));
                assert(out@ =~= q@.take(i as int) + seq![':'] + q@.skip(i + 1));
            }
            Some(out)
        },
        None => Some(q),
    }
}

fn append_chars(out: &mut Vec<char>, more: &Vec<char>)
    ensures
        final(out)@ == old(out)@ + more@,
{
    let ghost start = out@;
    let mut j: usize = 0;
    while j < more.len()
        invariant
            0 <= j <= more@.len(),
            out@ == start + more@.take(j as int),
        decreases more@.len() - j,
    {
        out.push(more[j]);
        proof {
            assert(start + more@.take(j as int) + seq![more@[j as int]] =~= start + more@.take(j + 1));
        }
        j = j + 1;
    }
    proof {
        assert(more@.take(more@.len() as int) =~= more@);
    }
}

/// Rewrite a markdown hash location suffix (`#L10C2-L12`) as a
/// `:line[:column][-line[:column]]` suffix; nothing when it is not one.
pub fn normalize_markdown_hash_location_suffix(suffix: &str) -> (r: Option<String>)
    ensures
        match r {
            Some(s) => hash_location_spec(suffix@) == Some(s@),
            None => hash_location_spec(suffix@) is None,
        },
{
    let chars = str_chars(suffix);
    if chars.len() == 0 || chars[0] != '#' {
        return None;
    }
    let fragment = chars_between(&chars, 1, chars.len());
    proof {
        assert(fragment@ =~= suffix@.skip(1));
    }
    let mut out: Vec<char> = Vec::new();
    out.push(':');
    match find_char(&fragment, '-') {
        Some(i) => {
            let start = chars_between(&fragment, 0, i);
            let end = chars_between(&fragment, i + 1, fragment.len());
            proof {
                assert(start@ =~= fragment@.take(i as int));
                assert(end@ =~= fragment@.skip(i + 1));
            }
            let a = match point(&start) {
                Some(a) => a,
                None => return None,
            };
            let b = match point(&end) {
                Some(b) => b,
                None => return None,
            };
            append_chars(&mut out, &a);
            out.push('-');
            append_chars(&mut out, &b);
            proof {
                assert(out@ =~= seq![':'] + a@ + seq!['-'] + b@);
            }
        },
        None => {
            let a = match point(&fragment) {
                Some(a) => a,
                None => return None,
            };
            append_chars(&mut out, &a);
            proof {
                assert(out@ =~= seq![':'] + a@);
            }
        },
    }
    Some(string_from_chars(out.as_slice()))
}

/// What `/cd <path>` asks for.
#[derive(Clone, Debug, PartialEq, Eq)]
pub enum WorkingDirectoryChange {
    /// The request is refused with this message.
    Rejected(String),
    /// Change to this path, relative to the current working directory
    /// unless it is absolute.
    Change(String),
}

/// What `/cd` does with its argument: the argument is trimmed and must not
/// be empty, the session must be ready, and the path loses one pair of
/// matching quotes and must still not be empty.
pub open spec fn working_directory_spec(path: Seq<char>, session_configured: bool) -> Result<
    Seq<char>,
    Seq<char>,
> {
    let trimmed = trim_spec(path);
    if trimmed.len() == 0 {
        Err("Usage: /cd <path>"@)
    } else if !session_configured {
        Err("Cannot change the working directory before the session is ready."@)
    } else if strip_quotes_spec(trimmed).len() == 0 {
        Err("Working directory path cannot be empty."@)
    } else {
        Ok(strip_quotes_spec(trimmed))
    }
}

/// Decide what `/cd <path>` does: refuse with a message, or change to the
/// given path (which the caller joins onto the current working directory).
pub fn change_working_directory(path: &str, session_configured: bool) -> (r: WorkingDirectoryChange)
    ensures
        match r {
            WorkingDirectoryChange::Rejected(m) => working_directory_spec(path@, session_configured)
                == Err::<Seq<char>, Seq<char>>(m@),
            WorkingDirectoryChange::Change(p) => working_directory_spec(path@, session_configured)
                == Ok::<Seq<char>, Seq<char>>(p@),
        },
{
    let path = trim_str(path);
    if path.unicode_len() == 0 {
        return WorkingDirectoryChange::Rejected(owned("Usage: /cd <path>"));
    }
    if !session_configured {
        return WorkingDirectoryChange::Rejected(
            owned("Cannot change the working directory before the session is ready."),
        );
    }
    let path = strip_matching_path_quotes(path);
    if path.unicode_len() == 0 {
        return WorkingDirectoryChange::Rejected(owned("Working directory path cannot be empty."));
    }
    WorkingDirectoryChange::Change(owned(path))
}

/// Whether `path` starts with a drive, as in `/C:/`.
pub open spec fn has_drive_prefix(path: Seq<char>) -> bool {
    &&& path.len() >= 4
    &&& path[0] == '/'
    &&& (('a' <= path[1] && path[1] <= 'z') || ('A' <= path[1] && path[1] <= 'Z'))
    &&& path[2] == ':'
    &&& path[3] == '/'
}

/// The local path that a `file:` URL names, from the URL's scheme, query,
/// fragment, host and percent-decoded path: no other scheme, no query or
/// fragment, a path that decodes and holds no NUL; a host other than
/// `localhost` is kept as `//host`, and `/C:/…` drive paths lose their
/// leading slash.
pub open spec fn file_path_spec(
    scheme: Seq<char>,
    query: Option<Seq<char>>,
    fragment: Option<Seq<char>>,
    host: Option<Seq<char>>,
    decoded_path: Option<Seq<char>>,
) -> Option<Seq<char>> {
    if scheme != "file"@ || query is Some || fragment is Some {
        None
    } else {
        match decoded_path {
            None => None,
            Some(path) => if path.contains('\0') {
                None
            } else if host matches Some(h) && h != "localhost"@ {
                Some("//"@ + host->0 + path)
            } else if has_drive_prefix(path) {
                Some(path.skip(1))
            } else {
                Some(path)
            },
        }
    }
}

/// The local path that a `file:` URL names, from its parts; see
/// `file_path_spec`.
pub fn file_path_from_url_parts(
    scheme: &str,
    query: &Option<String>,
    fragment: &Option<String>,
    host: &Option<String>,
    decoded_path: &Option<String>,
) -> (r: Option<String>)
    ensures
        match r {
            Some(p) => file_path_spec(
                scheme@,
                opt_view(query),
                opt_view(fragment),
                opt_view(host),
                opt_view(decoded_path),
            ) == Some(p@),
            None => file_path_spec(
                scheme@,
                opt_view(query),
                opt_view(fragment),
                opt_view(host),
                opt_view(decoded_path),
            ) is None,
        },
{
    if !str_eq(scheme, "file") || query.is_some() || fragment.is_some() {
        proof {
            reveal_strlit("file");
        }
        return None;
    }
    proof {
        reveal_strlit("file");
    }
    let path = match decoded_path {
        Some(p) => p,
        None => return None,
    };
    if str_contains_char(path.as_str(), '\0') {
        return None;
    }
    if let Some(h) = host {
        if !str_eq(h.as_str(), "localhost") {
            proof {
                reveal_strlit("localhost");
                reveal_strlit("//");
            }
            return Some(join3("//", h.as_str(), path.as_str()));
        }
    }
    proof {
        reveal_strlit("localhost");
    }
    let chars = str_chars(path.as_str());
    if chars.len() >= 4 && chars[0] == '/' && (('a' <= chars[1] && chars[1] <= 'z') || ('A'
        <= chars[1] && chars[1] <= 'Z')) && chars[2] == ':' && chars[3] == '/' {
        let rest = path.as_str().substring_char(1, chars.len());
        proof {
            assert(path@.subrange(1, path@.len() as int) =~= path@.skip(1));
        }
        return Some(owned(rest));
    }
    Some(owned(path.as_str()))
}

/// The view of an optional string.
pub open spec fn opt_view(s: &Option<String>) -> Option<Seq<char>> {
    match s {
        Some(v) => Some(v@),
        None => None,
    }
}

/// The local path that a `file:` URI names: `None` for anything that is not
/// a valid `file:` URL without query and fragment whose path decodes. Which
/// texts parse, and into which parts, `url` decides; the result is what
/// `file_path_spec` makes of those parts.
pub fn file_uri_path(uri: &str) -> (r: Option<String>)
    ensures
        url_parses(uri@) ==> opt_view(&r) == file_path_spec(
            url_scheme_of(uri@),
            url_query_of(uri@),
            url_fragment_of(uri@),
            url_host_of(uri@),
            percent_decoded(url_path_of(uri@)),
        ),
        !url_parses(uri@) ==> r is None,
{
    let url = match parse_url(uri) {
        Some(u) => u,
        None => {
            return None;
        },
    };
    let scheme = url_scheme(&url);
    let query = url_query(&url);
    let fragment = url_fragment(&url);
    let host = url_host(&url);
    let path = url_path(&url);
    let decoded = percent_decode(path.as_str());
    let r = file_path_from_url_parts(scheme.as_str(), &query, &fragment, &host, &decoded);
    proof {
        assert(opt_view(&decoded) == percent_decoded(path@));
        assert(file_path_spec(
            scheme@,
            opt_view(&query),
            opt_view(&fragment),
            opt_view(&host),
            percent_decoded(path@),
        ) == opt_view(&r));
    }
    r
}

} // verus!

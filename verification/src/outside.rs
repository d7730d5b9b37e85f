//! Calls into outside crates, with what this library relies on of them.

use vstd::prelude::*;
use crate::diff_rows::{hunk_ends_fit, hunks_view, DiffLineKind, PatchHunk};

verus! {

/// A parsed URL (`url::Url`); opaque here.
#[verifier::external_type_specification]
#[verifier::external_body]
pub struct ExUrl(url::Url);

/// What `shlex::split` gives for a string: its words under POSIX shell
/// quoting rules, or nothing when the quoting is malformed.
pub uninterp spec fn shlex_words(s: Seq<char>) -> Option<Seq<Seq<char>>>;

/// `shlex::split`, which splits a string into words the way a POSIX shell
/// does and returns nothing for malformed quoting. Its result depends on the
/// string alone; that is all that is claimed, through `shlex_words`.
#[verifier::external_body]
pub(crate) fn shell_words(s: &str) -> (r: Option<Vec<String>>)
    ensures
        match r {
            Some(v) => shlex_words(s@) == Some(v@.map_values(|w: String| w@)),
            None => shlex_words(s@) is None,
        },
{
    shlex::split(s)
}

/// Whether `url::Url::parse` accepts a text as an absolute URL.
pub uninterp spec fn url_parses(input: Seq<char>) -> bool;

/// A URL that `url` parsed, with the text it was parsed from and the query
/// pairs appended to it since.
pub(crate) struct ParsedUrl {
    pub(crate) url: url::Url,
    pub(crate) source: Ghost<Seq<char>>,
    pub(crate) appended: Ghost<Seq<(Seq<char>, Seq<char>)>>,
}

/// `url::Url::parse`: the URL that `input` denotes, or nothing when it is
/// not a valid absolute URL. Whether it parses depends on the text alone,
/// which is claimed through `url_parses`; the URL keeps its text, of which
/// the other URL items below are functions.
#[verifier::external_body]
pub(crate) fn parse_url(input: &str) -> (r: Option<ParsedUrl>)
    ensures
        r is Some <==> url_parses(input@),
        r matches Some(u) ==> u.source@ == input@ && u.appended@ == Seq::<(Seq<char>, Seq<char>)>::empty(),
{
    match url::Url::parse(input) {
        Ok(url) => Some(ParsedUrl { url, source: Ghost(input@), appended: Ghost(Seq::empty()) }),
        Err(_) => None,
    }
}

/// The local path, as text, that `url::Url::to_file_path` gives for the URL
/// parsed from a text.
pub uninterp spec fn url_file_path_of(input: Seq<char>) -> Option<Seq<char>>;

/// `url::Url::to_file_path`, as text: the local path of a `file:` URL, or
/// nothing when the URL has a remote host or its path is not valid UTF-8.
/// It depends on the URL's text alone, as `url_file_path_of` claims.
#[verifier::external_body]
pub(crate) fn url_file_path(url: &ParsedUrl) -> (r: Option<String>)
    requires
        url.appended@.len() == 0,
    ensures
        match r {
            Some(p) => url_file_path_of(url.source@) == Some(p@),
            None => url_file_path_of(url.source@) is None,
        },
{
    match url.url.to_file_path() {
        Ok(path) => path.into_os_string().into_string().ok(),
        Err(()) => None,
    }
}

/// The path, percent-encoded, of the URL parsed from a text.
pub uninterp spec fn url_path_of(input: Seq<char>) -> Seq<char>;

/// `url::Url::path`: the path of the URL, percent-encoded; a function of
/// the URL's text, as `url_path_of` claims.
#[verifier::external_body]
pub(crate) fn url_path(url: &ParsedUrl) -> (r: String)
    requires
        url.appended@.len() == 0,
    ensures
        r@ == url_path_of(url.source@),
{
    url.url.path().to_string()
}

/// The percent-decoded query pairs of the URL parsed from a text.
pub uninterp spec fn url_query_pairs_of(input: Seq<char>) -> Seq<(Seq<char>, Seq<char>)>;

/// `url::Url::query_pairs`: the percent-decoded key/value pairs of the
/// query, in order; a function of the URL's text, as `url_query_pairs_of`
/// claims.
#[verifier::external_body]
pub(crate) fn url_query_pairs(url: &ParsedUrl) -> (r: Vec<(String, String)>)
    requires
        url.appended@.len() == 0,
    ensures
        r@.map_values(|p: (String, String)| (p.0@, p.1@)) == url_query_pairs_of(url.source@),
{
    let mut pairs = Vec::new();
    for (key, value) in url.url.query_pairs() {
        pairs.push((key.into_owned(), value.into_owned()));
    }
    pairs
}

/// The number of terminal columns that `unicode_width` gives a string.
pub uninterp spec fn str_columns(s: Seq<char>) -> nat;

/// `unicode_width::UnicodeWidthStr::width`: how many terminal columns `s`
/// takes (Unicode Standard Annex #11, ambiguous characters one column wide).
/// Its result depends on the string alone; that is all that is claimed,
/// through `str_columns`.
#[verifier::external_body]
pub(crate) fn display_width(s: &str) -> (r: usize)
    ensures
        r == str_columns(s@),
{
    unicode_width::UnicodeWidthStr::width(s)
}

/// The scheme, lower-cased, of the URL parsed from a text.
pub uninterp spec fn url_scheme_of(input: Seq<char>) -> Seq<char>;

/// `url::Url::scheme`: the scheme of the URL, lower-cased; a function of
/// the URL's text, as `url_scheme_of` claims.
#[verifier::external_body]
pub(crate) fn url_scheme(url: &ParsedUrl) -> (r: String)
    requires
        url.appended@.len() == 0,
    ensures
        r@ == url_scheme_of(url.source@),
{
    url.url.scheme().to_string()
}

/// The query, without its `?`, of the URL parsed from a text, if it has one.
pub uninterp spec fn url_query_of(input: Seq<char>) -> Option<Seq<char>>;

/// `url::Url::query`: the query of the URL, if it has one; a function of
/// the URL's text, as `url_query_of` claims.
#[verifier::external_body]
pub(crate) fn url_query(url: &ParsedUrl) -> (r: Option<String>)
    requires
        url.appended@.len() == 0,
    ensures
        match r {
            Some(q) => url_query_of(url.source@) == Some(q@),
            None => url_query_of(url.source@) is None,
        },
{
    url.url.query().map(str::to_string)
}

/// The fragment, without its `#`, of the URL parsed from a text, if it has
/// one.
pub uninterp spec fn url_fragment_of(input: Seq<char>) -> Option<Seq<char>>;

/// `url::Url::fragment`: the fragment of the URL, if it has one; a function
/// of the URL's text, as `url_fragment_of` claims.
#[verifier::external_body]
pub(crate) fn url_fragment(url: &ParsedUrl) -> (r: Option<String>)
    requires
        url.appended@.len() == 0,
    ensures
        match r {
            Some(f) => url_fragment_of(url.source@) == Some(f@),
            None => url_fragment_of(url.source@) is None,
        },
{
    url.url.fragment().map(str::to_string)
}

/// The host, as text, of the URL parsed from a text, if it has one.
pub uninterp spec fn url_host_of(input: Seq<char>) -> Option<Seq<char>>;

/// `url::Url::host_str`: the host of the URL as text, if it has one; a
/// function of the URL's text, as `url_host_of` claims.
#[verifier::external_body]
pub(crate) fn url_host(url: &ParsedUrl) -> (r: Option<String>)
    requires
        url.appended@.len() == 0,
    ensures
        match r {
            Some(h) => url_host_of(url.source@) == Some(h@),
            None => url_host_of(url.source@) is None,
        },
{
    url.url.host_str().map(str::to_string)
}

/// What `urlencoding::decode` gives for a string: its percent-escapes
/// decoded, or nothing when the decoded bytes are not UTF-8.
pub uninterp spec fn percent_decoded(s: Seq<char>) -> Option<Seq<char>>;

/// `urlencoding::decode`, which replaces each `%XX` escape by its byte and
/// fails when the bytes are not valid UTF-8. Its result depends on the
/// string alone; that is all that is claimed, through `percent_decoded`.
#[verifier::external_body]
pub(crate) fn percent_decode(s: &str) -> (r: Option<String>)
    ensures
        match r {
            Some(d) => percent_decoded(s@) == Some(d@),
            None => percent_decoded(s@) is None,
        },
{
    match urlencoding::decode(s) {
        Ok(decoded) => Some(decoded.into_owned()),
        Err(_) => None,
    }
}

/// The character of a 6-bit value in the URL-safe base64 alphabet:
/// `A`-`Z`, `a`-`z`, `0`-`9`, `-` and `_`.
pub open spec fn base64url_char(v: int) -> char {
    if v < 26 {
        (65 + v) as char
    } else if v < 52 {
        (97 + (v - 26)) as char
    } else if v < 62 {
        (48 + (v - 52)) as char
    } else if v == 62 {
        '-'
    } else {
        '_'
    }
}

/// URL-safe base64 without padding: each group of three bytes gives four
/// characters of six bits each, most significant first; a final two bytes
/// give three characters and a final byte two, their spare low bits zero.
pub open spec fn base64url(bytes: Seq<u8>) -> Seq<char>
    decreases bytes.len(),
{
    if bytes.len() == 0 {
        Seq::empty()
    } else if bytes.len() == 1 {
        let b0 = bytes[0] as int;
        seq![base64url_char(b0 / 4), base64url_char((b0 % 4) * 16)]
    } else if bytes.len() == 2 {
        let b0 = bytes[0] as int;
        let b1 = bytes[1] as int;
        seq![base64url_char(b0 / 4), base64url_char((b0 % 4) * 16 + b1 / 16), base64url_char((b1 % 16) * 4)]
    } else {
        let b0 = bytes[0] as int;
        let b1 = bytes[1] as int;
        let b2 = bytes[2] as int;
        seq![
            base64url_char(b0 / 4),
            base64url_char((b0 % 4) * 16 + b1 / 16),
            base64url_char((b1 % 16) * 4 + b2 / 64),
            base64url_char(b2 % 64),
        ] + base64url(bytes.skip(3))
    }
}

/// `base64::engine::general_purpose::URL_SAFE_NO_PAD.encode`: the bytes in
/// the URL-safe base64 alphabet, without `=` padding, as `base64url` states
/// it.
#[verifier::external_body]
pub(crate) fn base64url_encode(bytes: &[u8]) -> (r: String)
    ensures
        r@ == base64url(bytes@),
{
    base64::Engine::encode(&base64::engine::general_purpose::URL_SAFE_NO_PAD, bytes)
}

/// What `base64`'s URL-safe engine without padding decodes a string to:
/// nothing when the string is not such base64.
pub uninterp spec fn base64url_decoded(s: Seq<char>) -> Option<Seq<u8>>;

/// `base64::engine::general_purpose::URL_SAFE_NO_PAD.decode`: the bytes that
/// URL-safe base64 without padding spells, or nothing when `s` is not that.
/// Its result depends on the string alone; that is all that is claimed,
/// through `base64url_decoded`.
#[verifier::external_body]
pub(crate) fn base64url_decode(s: &str) -> (r: Option<Vec<u8>>)
    ensures
        match r {
            Some(b) => base64url_decoded(s@) == Some(b@),
            None => base64url_decoded(s@) is None,
        },
{
    base64::Engine::decode(&base64::engine::general_purpose::URL_SAFE_NO_PAD, s).ok()
}

/// The SHA-256 digest of some bytes.
pub uninterp spec fn sha256(bytes: Seq<u8>) -> Seq<u8>;

/// `sha2::Sha256::digest`: the SHA-256 digest of `bytes`, 32 bytes long. Its
/// result depends on the bytes alone; that and the length are all that is
/// claimed.
#[verifier::external_body]
pub(crate) fn sha256_digest(bytes: &[u8]) -> (r: Vec<u8>)
    ensures
        r@ == sha256(bytes@),
        r@.len() == 32,
{
    <sha2::Sha256 as sha2::Digest>::digest(bytes).to_vec()
}

/// `rand::rng().fill_bytes`: 64 bytes from the thread's cryptographically
/// secure generator. Nothing is claimed of them.
#[verifier::external_body]
pub(crate) fn random_bytes() -> (r: [u8; 64]) {
    let mut bytes = [0u8; 64];
    rand::RngCore::fill_bytes(&mut rand::rng(), &mut bytes);
    bytes
}

/// `url::Url::query_pairs_mut` and its `extend_pairs`: append the pairs,
/// form-encoded, to the query of the URL. What the URL becomes is claimed
/// only through its serialization below.
#[verifier::external_body]
pub(crate) fn url_append_query_pairs(url: &mut ParsedUrl, pairs: &[(String, String)])
    ensures
        final(url).source == old(url).source,
        final(url).appended@ == old(url).appended@ + pairs@.map_values(|p: (String, String)| (p.0@, p.1@)),
{
    url.url.query_pairs_mut().extend_pairs(pairs.iter());
    url.appended = Ghost(url.appended@ + pairs@.map_values(|p: (String, String)| (p.0@, p.1@)));
}

/// The serialization of the URL parsed from a text once the pairs were
/// appended to its query.
pub uninterp spec fn url_serialized(input: Seq<char>, appended: Seq<(Seq<char>, Seq<char>)>) -> Seq<char>;

/// `String::from(url::Url)`: the serialization of the URL; a function of
/// its text and the pairs appended to it, as `url_serialized` claims.
#[verifier::external_body]
pub(crate) fn url_into_string(url: ParsedUrl) -> (r: String)
    ensures
        r@ == url_serialized(url.source@, url.appended@),
{
    String::from(url.url)
}

/// The hunks that `diffy` reads out of a unified diff: for each, where it
/// starts in the old and in the new file and its lines, each with its kind
/// and text (newline included); nothing when the text is not a patch.
pub uninterp spec fn patch_hunks(text: Seq<char>) -> Option<Seq<(usize, usize, Seq<(DiffLineKind, Seq<char>)>)>>;

/// `diffy::Patch::from_str` and the hunks of the patch: its hunks with their
/// old and new start lines and their lines, or nothing when the text does
/// not parse. Its result depends on the text alone; that is all that is
/// claimed, through `patch_hunks`. Once every hunk has parsed, diffy checks
/// that the hunks are in order, adding start and length of both ranges of
/// every hunk but the last; that addition overflows when such a range ends
/// past `usize::MAX`. In a diff whose hunks all parse, the hunk headers are
/// exactly the lines that begin with `@@ ` (the preamble stops at the first
/// of them, and hunk bodies stop at any line that begins with `@`), and
/// diffy reads their ranges as `header_ranges` does, so `hunk_ends_fit`
/// keeps the call from that overflow; any other text makes it fail or
/// succeed without it.
#[verifier::external_body]
pub(crate) fn parse_patch(text: &str) -> (r: Option<Vec<PatchHunk>>)
    requires
        hunk_ends_fit(text@),
    ensures
        match r {
            Some(h) => patch_hunks(text@) == Some(hunks_view(h@)),
            None => patch_hunks(text@) is None,
        },
{
    let patch = diffy::Patch::from_str(text).ok()?;
    let mut hunks = Vec::new();
    for h in patch.hunks() {
        let mut lines = Vec::new();
        for l in h.lines() {
            lines.push(match l {
                diffy::Line::Insert(t) => (DiffLineKind::Insert, t.to_string()),
                diffy::Line::Delete(t) => (DiffLineKind::Delete, t.to_string()),
                diffy::Line::Context(t) => (DiffLineKind::Context, t.to_string()),
            });
        }
        hunks.push(PatchHunk { old_start: h.old_range().start(), new_start: h.new_range().start(), lines });
    }
    Some(hunks)
}

/// A hexadecimal digit, lower case.
pub open spec fn hex_digit(d: int) -> char {
    if d < 10 {
        (48 + d) as char
    } else {
        (87 + d) as char
    }
}

/// How JSON writes one character inside a string: `"` and `\` escaped,
/// backspace, tab, line feed, form feed and carriage return by their short
/// escapes, the other control characters as `\u00XX` with lower-case hex
/// digits, and every other character as it is.
pub open spec fn json_escape(c: char) -> Seq<char> {
    if c == '"' {
        seq!['\\', '"']
    } else if c == '\\' {
        seq!['\\', '\\']
    } else if c == '\u{8}' {
        seq!['\\', 'b']
    } else if c == '\t' {
        seq!['\\', 't']
    } else if c == '\n' {
        seq!['\\', 'n']
    } else if c == '\u{c}' {
        seq!['\\', 'f']
    } else if c == '\r' {
        seq!['\\', 'r']
    } else if (c as int) < 32 {
        seq!['\\', 'u', '0', '0', hex_digit(c as int / 16), hex_digit(c as int % 16)]
    } else {
        seq![c]
    }
}

/// The characters of `s`, each as JSON writes it inside a string.
pub open spec fn json_escaped(s: Seq<char>) -> Seq<char>
    decreases s.len(),
{
    if s.len() == 0 {
        Seq::empty()
    } else {
        json_escaped(s.drop_last()) + json_escape(s.last())
    }
}

/// `s` as a JSON string: in double quotes, with the escapes above.
pub open spec fn json_quoted(s: Seq<char>) -> Seq<char> {
    seq!['"'] + json_escaped(s) + seq!['"']
}

/// `serde_json::to_string` of a string: the string in double quotes, `"`,
/// `\` and control characters escaped as `json_quoted` states. Writing into
/// memory cannot fail, so a string always comes back.
#[verifier::external_body]
pub(crate) fn json_string(s: &str) -> (r: Option<String>)
    ensures
        r is Some,
        r->0@ == json_quoted(s@),
{
    serde_json::to_string(s).ok()
}

} // verus!

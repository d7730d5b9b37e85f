//! The instructions that open every conversation: the system prompt, the
//! working directory, `AGENTS.md` files and the skill catalog, cut into
//! fragments that fit the model's text budget.

use vstd::prelude::*;
use crate::outside::{json_quoted, json_string};
use crate::text::{char_bytes, char_utf8_len, lemma_utf8_len_concat, lemma_utf8_len_take, owned, push_char, str_chars, utf8_count, utf8_len};

verus! {

/// The most bytes that all instruction fragments together may take.
pub const MAX_CONTEXT_BYTES: usize = 65536;

/// Where an instruction fragment comes from.
#[derive(Clone, Copy, Debug, PartialEq, Eq, Structural)]
pub enum ContextKind {
    System,
    Project,
    Skill,
}

/// One instruction fragment: its source name on the first line, then text.
#[derive(Clone, Debug)]
pub struct ContextFragmentText {
    pub kind: ContextKind,
    pub text: String,
}

/// The instructions gathered for a workspace.
#[derive(Clone, Debug)]
pub struct ProjectContext {
    pub fragments: Vec<ContextFragmentText>,
    /// Directories outside the workspace that may be read (skill roots).
    pub read_roots: Vec<String>,
    pub warnings: Vec<String>,
    /// The bytes that the fragments take.
    pub bytes: usize,
}

/// How many characters of `text`, from the `k`-th on, still fit in `limit`
/// bytes: the length of the longest prefix that takes at most `limit` bytes.
pub open spec fn fit_from(text: Seq<char>, limit: int, k: int) -> int
    decreases text.len() - k,
{
    if 0 <= k < text.len() && utf8_len(text.take(k + 1)) <= limit {
        fit_from(text, limit, k + 1)
    } else {
        k
    }
}

/// The length of the longest prefix of `text` that takes at most `limit`
/// bytes.
pub open spec fn fit_len(text: Seq<char>, limit: int) -> int {
    fit_from(text, limit, 0)
}

pub proof fn lemma_fit_bounds(text: Seq<char>, limit: int, k: int)
    requires
        0 <= k <= text.len(),
    ensures
        k <= fit_from(text, limit, k) <= text.len(),
    decreases text.len() - k,
{
    if k < text.len() && utf8_len(text.take(k + 1)) <= limit {
        lemma_fit_bounds(text, limit, k + 1);
    }
}

/// The fragments that `text` is cut into, each `prefix` followed by the
/// longest piece of what is left that fits in `limit` bytes, and the bytes
/// taken once they are added to `bytes`; an error when a character does not
/// fit or the total would pass `MAX_CONTEXT_BYTES`.
pub open spec fn fragments_spec(prefix: Seq<char>, text: Seq<char>, limit: int, bytes: int) -> Result<
    (Seq<Seq<char>>, int),
    Seq<char>,
>
    decreases text.len(),
{
    if text.len() == 0 {
        Ok((Seq::empty(), bytes))
    } else {
        let end = fit_len(text, limit);
        proof {
            lemma_fit_bounds(text, limit, 0);
        }
        if end == 0 {
            Err("instruction fragment cannot fit its byte budget"@)
        } else {
            let fragment = prefix + text.take(end);
            let total = bytes + utf8_len(fragment);
            if total > MAX_CONTEXT_BYTES {
                Err("project instructions exceed the total context budget"@)
            } else {
                match fragments_spec(prefix, text.skip(end), limit, total) {
                    Ok((rest, b)) => Ok((seq![fragment] + rest, b)),
                    Err(e) => Err(e),
                }
            }
        }
    }
}

/// `done` followed by the fragments of `r`.
pub open spec fn after(done: Seq<Seq<char>>, r: Result<(Seq<Seq<char>>, int), Seq<char>>) -> Result<
    (Seq<Seq<char>>, int),
    Seq<char>,
> {
    match r {
        Ok((rest, b)) => Ok((done + rest, b)),
        Err(e) => Err(e),
    }
}

/// What appending `text` from `source` gives: the fragments and the bytes
/// taken, or the error. The source name and a newline head every fragment
/// and must leave room for text.
pub open spec fn append_spec(source: Seq<char>, text: Seq<char>, max_text_bytes: int, bytes: int) -> Result<
    (Seq<Seq<char>>, int),
    Seq<char>,
> {
    let prefix = source.push('\n');
    if utf8_len(prefix) >= max_text_bytes {
        Err("instruction source name is too long"@)
    } else {
        fragments_spec(prefix, text, max_text_bytes - utf8_len(prefix), bytes)
    }
}

/// The texts of the fragments without their `head`-character heads, in order.
pub open spec fn fragment_texts(frs: Seq<Seq<char>>, head: int) -> Seq<char>
    decreases frs.len(),
{
    if frs.len() == 0 {
        Seq::empty()
    } else {
        frs[0].skip(head) + fragment_texts(frs.skip(1), head)
    }
}

/// The longest prefix that fits takes at most `limit` bytes.
proof fn lemma_fit_fits(text: Seq<char>, limit: int, k: int)
    requires
        0 <= k <= text.len(),
        utf8_len(text.take(k)) <= limit,
    ensures
        utf8_len(text.take(fit_from(text, limit, k))) <= limit,
    decreases text.len() - k,
{
    if k < text.len() && utf8_len(text.take(k + 1)) <= limit {
        lemma_fit_fits(text, limit, k + 1);
    }
}

/// Cutting keeps the text: each fragment is the prefix and a piece of at
/// most `limit` bytes, and the pieces in order make up the text.
proof fn lemma_fragments_keep_text(prefix: Seq<char>, text: Seq<char>, limit: int, bytes: int)
    requires
        fragments_spec(prefix, text, limit, bytes) is Ok,
        limit >= 0,
    ensures
        match fragments_spec(prefix, text, limit, bytes) {
            Ok((frs, _)) => fragment_texts(frs, prefix.len() as int) == text && forall|j: int|
                0 <= j < frs.len() ==> (#[trigger] frs[j]).take(prefix.len() as int) == prefix
                    && frs[j].len() > prefix.len() && utf8_len(frs[j]) <= utf8_len(prefix) + limit,
            Err(_) => true,
        },
    decreases text.len(),
{
    if text.len() > 0 {
        let end = fit_len(text, limit);
        lemma_fit_bounds(text, limit, 0);
        let fragment = prefix + text.take(end);
        let total = bytes + utf8_len(fragment);
        lemma_fragments_keep_text(prefix, text.skip(end), limit, total);
        assert(text.take(0) =~= Seq::<char>::empty());
        lemma_fit_fits(text, limit, 0);
        lemma_utf8_len_concat(prefix, text.take(end));
        match fragments_spec(prefix, text.skip(end), limit, total) {
            Ok((rest, b)) => {
                let frs = seq![fragment] + rest;
                assert(frs.skip(1) =~= rest);
                assert(frs[0] == fragment);
                assert(fragment.skip(prefix.len() as int) =~= text.take(end));
                assert(fragment.take(prefix.len() as int) =~= prefix);
                assert(text.take(end) + text.skip(end) =~= text);
                assert forall|j: int| 0 <= j < frs.len() implies (#[trigger] frs[j]).take(prefix.len() as int)
                    == prefix && frs[j].len() > prefix.len() && utf8_len(frs[j]) <= utf8_len(prefix)
                    + limit by {
                    if j > 0 {
                        assert(frs[j] == rest[j - 1]);
                    }
                }
            },
            Err(_) => {},
        }
    }
}

/// Appending cuts the text without loss: every fragment starts with the
/// source name and a newline, fits in `max_text_bytes` bytes, and the
/// fragments without that head, in order, make up the text.
pub proof fn lemma_append_keeps_text(source: Seq<char>, text: Seq<char>, max_text_bytes: int, bytes: int)
    requires
        append_spec(source, text, max_text_bytes, bytes) is Ok,
    ensures
        match append_spec(source, text, max_text_bytes, bytes) {
            Ok((frs, _)) => fragment_texts(frs, source.len() + 1int) == text && forall|j: int|
                0 <= j < frs.len() ==> (#[trigger] frs[j]).take(source.len() + 1int) == source.push('\n')
                    && utf8_len(frs[j]) <= max_text_bytes,
            Err(_) => true,
        },
{
    let prefix = source.push('\n');
    lemma_fragments_keep_text(prefix, text, max_text_bytes - utf8_len(prefix), bytes);
}

impl ProjectContext {
    /// The context holds `bytes` within the budget.
    pub open spec fn wf(&self) -> bool {
        self.bytes <= MAX_CONTEXT_BYTES
    }

    /// A context without instructions.
    pub fn new() -> (r: Self)
        ensures
            r.wf(),
            r.fragments@.len() == 0,
            r.read_roots@.len() == 0,
            r.warnings@.len() == 0,
            r.bytes == 0,
    {
        ProjectContext { fragments: Vec::new(), read_roots: Vec::new(), warnings: Vec::new(), bytes: 0 }
    }

    /// Add `text` from `source` as fragments of kind `kind`, each at most
    /// `max_text_bytes` bytes, its source name on its first line. On an
    /// error the context is left as it was.
    pub fn append(&mut self, kind: ContextKind, source: &str, text: &str, max_text_bytes: usize) -> (r:
        Result<(), String>)
        requires
            old(self).wf(),
        ensures
            final(self).wf(),
            match append_spec(source@, text@, max_text_bytes as int, old(self).bytes as int) {
                Ok((frs, b)) => r is Ok && final(self).bytes == b && final(self).read_roots
                    == old(self).read_roots && final(self).warnings == old(self).warnings
                    && final(self).fragments@.len() == old(self).fragments@.len() + frs.len() && (
                forall|i: int|
                    0 <= i < old(self).fragments@.len() ==> #[trigger] final(self).fragments@[i]
                        == old(self).fragments@[i]) && (forall|j: int|
                    0 <= j < frs.len() ==> (#[trigger] final(self).fragments@[old(self).fragments@.len()
                        + j]).kind == kind && final(self).fragments@[old(self).fragments@.len()
                        + j].text@ == frs[j]),
                Err(e) => r matches Err(m) && m@ == e && *final(self) == *old(self),
            },
    {
        let prefix_len: u128 = utf8_count(source) + 1;
        let ghost prefix = source@.push('\n');
        proof {
            lemma_utf8_len_concat(source@, seq!['\n']);
            assert(source@ + seq!['\n'] =~= prefix);
            assert(utf8_len(seq!['\n']) == 1) by {
                assert(seq!['\n'].drop_last() =~= Seq::<char>::empty());
                assert(seq!['\n'].last() == '\n');
                assert(('\n' as u32) == 10);
                assert(utf8_len(Seq::<char>::empty()) == 0);
                assert(char_bytes('\n') == 1);
            }
        }
        if prefix_len >= max_text_bytes as u128 {
            return Err(owned("instruction source name is too long"));
        }
        let limit: usize = (max_text_bytes as u128 - prefix_len) as usize;
        let chars = str_chars(text);
        let n = chars.len();
        let mut pos: usize = 0;
        let mut bytes: usize = self.bytes;
        let mut added: Vec<ContextFragmentText> = Vec::new();
        let ghost t = text@;
        let ghost mut done: Seq<Seq<char>> = Seq::empty();
        proof {
            assert(t.skip(0) =~= t);
            assert(done + Seq::<Seq<char>>::empty() =~= Seq::<Seq<char>>::empty());
        }
        while pos < n
            invariant
                n == t.len(),
                chars@ == t,
                t == text@,
                prefix == source@.push('\n'),
                prefix_len == utf8_len(prefix),
                prefix_len < max_text_bytes,
                limit == max_text_bytes - utf8_len(prefix),
                0 <= pos <= n,
                bytes <= MAX_CONTEXT_BYTES,
                added@.len() == done.len(),
                forall|j: int|
                    0 <= j < done.len() ==> (#[trigger] added@[j]).kind == kind && added@[j].text@
                        == done[j],
                fragments_spec(prefix, t, limit as int, old(self).bytes as int) == after(
                    done,
                    fragments_spec(prefix, t.skip(pos as int), limit as int, bytes as int),
                ),
                *self == *old(self),
                old(self).bytes <= MAX_CONTEXT_BYTES,
            decreases n - pos,
        {
            let ghost s = t.skip(pos as int);
            let mut end: usize = pos;
            let mut acc: usize = 0;
            proof {
                assert(s.take(0) =~= Seq::<char>::empty());
            }
            while end < n && acc as u128 + char_utf8_len(chars[end]) as u128 <= limit as u128
                invariant
                    n == t.len(),
                    chars@ == t,
                    s == t.skip(pos as int),
                    0 <= pos <= end <= n,
                    acc == utf8_len(s.take(end - pos)),
                    acc <= limit,
                    fit_len(s, limit as int) == fit_from(s, limit as int, end - pos),
                decreases n - end,
            {
                proof {
                    lemma_utf8_len_take(s, end - pos);
                    assert(s[end - pos] == chars@[end as int]);
                }
                acc = acc + char_utf8_len(chars[end]);
                end = end + 1;
            }
            proof {
                if end < n {
                    lemma_utf8_len_take(s, end - pos);
                    assert(s[end - pos] == chars@[end as int]);
                }
                assert(fit_len(s, limit as int) == end - pos);
                lemma_fit_bounds(s, limit as int, 0);
            }
            if end == pos {
                proof {
                    assert(s.len() > 0);
                    assert(fragments_spec(prefix, s, limit as int, bytes as int) == Err::<
                        (Seq<Seq<char>>, int),
                        Seq<char>,
                    >("instruction fragment cannot fit its byte budget"@));
                    assert(after(done, fragments_spec(prefix, s, limit as int, bytes as int)) == Err::<
                        (Seq<Seq<char>>, int),
                        Seq<char>,
                    >("instruction fragment cannot fit its byte budget"@));
                    assert(append_spec(source@, text@, max_text_bytes as int, old(self).bytes as int) == Err::<
                        (Seq<Seq<char>>, int),
                        Seq<char>,
                    >("instruction fragment cannot fit its byte budget"@));
                }
                return Err(owned("instruction fragment cannot fit its byte budget"));
            }
            let ghost chunk = s.take(end - pos);
            proof {
                lemma_utf8_len_concat(prefix, chunk);
            }
            let fragment_len: u128 = prefix_len + acc as u128;
            if bytes as u128 + fragment_len > MAX_CONTEXT_BYTES as u128 {
                proof {
                    assert(utf8_len(prefix + chunk) == fragment_len);
                    assert(fragments_spec(prefix, s, limit as int, bytes as int) == Err::<
                        (Seq<Seq<char>>, int),
                        Seq<char>,
                    >("project instructions exceed the total context budget"@));
                }
                return Err(owned("project instructions exceed the total context budget"));
            }
            let mut fragment = String::new();
            fragment.append(source);
            push_char(&mut fragment, '\n');
            let mut k: usize = pos;
            while k < end
                invariant
                    chars@ == t,
                    s == t.skip(pos as int),
                    0 <= pos <= k <= end <= n,
                    n == t.len(),
                    fragment@ == prefix + s.take(k - pos),
                decreases end - k,
            {
                push_char(&mut fragment, chars[k]);
                proof {
                    assert(prefix + s.take(k - pos) + seq![chars@[k as int]] =~= prefix + s.take(k + 1 - pos));
                }
                k = k + 1;
            }
            proof {
                assert(fragment@ == prefix + chunk);
                assert(t.skip(pos as int).skip(end - pos) =~= t.skip(end as int));
                assert forall|rest: Seq<Seq<char>>|
                    done + (seq![prefix + chunk] + rest) == #[trigger] (done.push(prefix + chunk) + rest) by {
                    assert(done + (seq![prefix + chunk] + rest) =~= done.push(prefix + chunk) + rest);
                }
            }
            bytes = bytes + fragment_len as usize;
            added.push(ContextFragmentText { kind, text: fragment });
            proof {
                done = done.push(prefix + chunk);
            }
            pos = end;
        }
        proof {
            assert(t.skip(n as int).len() == 0);
            assert(done + Seq::<Seq<char>>::empty() =~= done);
        }
        let ghost start = self.fragments@;
        let ghost added_v = added@;
        self.fragments.append(&mut added);
        proof {
            assert forall|j: int| 0 <= j < done.len() implies (#[trigger] self.fragments@[start.len() + j]).kind
                == kind && self.fragments@[start.len() + j].text@ == done[j] by {
                assert(self.fragments@[start.len() + j] == added_v[j]);
            }
        }
        self.bytes = bytes;
        Ok(())
    }
}

/// At most this many ancestors of the workspace are searched for
/// instructions.
pub const MAX_INSTRUCTION_DIRECTORIES: usize = 32;

/// The number of leading ancestors that hold no `.git`, within the first `n`.
pub open spec fn before_git(has_git: Seq<bool>, n: int) -> int
    decreases n,
{
    if n <= 0 {
        0
    } else if before_git(has_git, n - 1) == n - 1 && !has_git[n - 1] {
        n
    } else {
        before_git(has_git, n - 1)
    }
}

/// How many ancestors of the workspace (itself first) are searched for
/// `AGENTS.md`, from whether each of the first ones holds `.git` and whether
/// ancestors remain above them: up to and including the first that holds
/// `.git`, at most 32; an error when 32 were searched without finding
/// `.git` and the last of them has a parent.
pub open spec fn instruction_directories_spec(has_git: Seq<bool>, more_above: bool) -> Result<int, Seq<char>> {
    let n = if has_git.len() < MAX_INSTRUCTION_DIRECTORIES {
        has_git.len() as int
    } else {
        MAX_INSTRUCTION_DIRECTORIES as int
    };
    let plain = before_git(has_git, n);
    if plain < n {
        Ok(plain + 1)
    } else if n == MAX_INSTRUCTION_DIRECTORIES && (has_git.len() > n || more_above) {
        Err("workspace ancestry exceeds its context discovery budget"@)
    } else {
        Ok(n)
    }
}

/// How many ancestors of the workspace are searched for instructions;
/// `has_git[i]` says whether the `i`-th ancestor (the workspace first)
/// holds `.git`, and `more_above` whether ancestors remain above the last
/// one given.
pub fn instruction_directories(has_git: &[bool], more_above: bool) -> (r: Result<usize, String>)
    ensures
        match r {
            Ok(k) => instruction_directories_spec(has_git@, more_above) == Ok::<int, Seq<char>>(k as int),
            Err(e) => instruction_directories_spec(has_git@, more_above) == Err::<int, Seq<char>>(e@),
        },
{
    let n: usize = if has_git.len() < MAX_INSTRUCTION_DIRECTORIES {
        has_git.len()
    } else {
        MAX_INSTRUCTION_DIRECTORIES
    };
    let mut i: usize = 0;
    while i < n
        invariant
            n <= has_git@.len(),
            0 <= i <= n,
            before_git(has_git@, i as int) == i,
            n == (if has_git@.len() < MAX_INSTRUCTION_DIRECTORIES {
                has_git@.len() as int
            } else {
                MAX_INSTRUCTION_DIRECTORIES as int
            }),
        decreases n - i,
    {
        if has_git[i] {
            proof {
                lemma_before_git_stops(has_git@, i as int, n as int);
            }
            return Ok(i + 1);
        }
        i = i + 1;
    }
    if n == MAX_INSTRUCTION_DIRECTORIES && (has_git.len() > n || more_above) {
        return Err(owned("workspace ancestry exceeds its context discovery budget"));
    }
    Ok(n)
}

/// Once an ancestor holds `.git`, the count of leading ones without it
/// stops there.
proof fn lemma_before_git_stops(has_git: Seq<bool>, i: int, n: int)
    requires
        0 <= i < n <= has_git.len(),
        before_git(has_git, i) == i,
        has_git[i],
    ensures
        before_git(has_git, n) == i,
    decreases n - i,
{
    if n > i + 1 {
        lemma_before_git_stops(has_git, i, n - 1);
    }
}

/// The line that the skill catalog gives a skill.
pub open spec fn catalog_line_spec(name: Seq<char>, description: Seq<char>, path: Seq<char>) -> Seq<char> {
    "- "@ + name + ": "@ + description + " ("@ + path + ")\n"@
}

/// Add a skill's line to the catalog, unless the catalog would then pass
/// `max_text_bytes - 128` bytes; `false`, with the catalog unchanged, when
/// the line does not fit.
pub fn push_catalog_line(catalog: &mut String, name: &str, description: &str, path: &str, max_text_bytes: usize) -> (r:
    bool)
    requires
        max_text_bytes >= 128,
    ensures
        r == (utf8_len(old(catalog)@) + utf8_len(catalog_line_spec(name@, description@, path@))
            <= max_text_bytes - 128),
        r ==> final(catalog)@ == old(catalog)@ + catalog_line_spec(name@, description@, path@),
        !r ==> final(catalog)@ == old(catalog)@,
{
    let mut line = owned("- ");
    line.append(name);
    line.append(": ");
    line.append(description);
    line.append(" (");
    line.append(path);
    line.append(")\n");
    proof {
        assert(line@ =~= catalog_line_spec(name@, description@, path@));
    }
    if utf8_count(catalog.as_str()) + utf8_count(line.as_str()) > (max_text_bytes - 128) as u128 {
        return false;
    }
    catalog.append(line.as_str());
    true
}

/// The text that tells the model where it works: the workspace directory
/// as a JSON string.
pub open spec fn environment_spec(workspace: Seq<char>) -> Seq<char> {
    "Current working directory: "@ + json_quoted(workspace)
        + "\nResolve relative file paths against this directory."@
}

/// The execution environment instruction for a workspace directory.
pub fn environment_text(workspace: &str) -> (r: String)
    ensures
        r@ == environment_spec(workspace@),
{
    let quoted = match json_string(workspace) {
        Some(q) => q,
        None => String::new(),
    };
    let mut r = owned("Current working directory: ");
    r.append(quoted.as_str());
    r.append("\nResolve relative file paths against this directory.");
    proof {
        reveal_strlit("Current working directory: ");
        reveal_strlit("\nResolve relative file paths against this directory.");
    }
    r
}

/// An instruction source to append: its kind, its name and its text.
pub type ContextSource = (ContextKind, String, String);

/// The view of an instruction source.
pub open spec fn source_view(s: ContextSource) -> (ContextKind, Seq<char>, Seq<char>) {
    (s.0, s.1@, s.2@)
}

/// The `AGENTS.md` source of the ancestor at `i`, if it has one; each
/// ancestor is given with its `AGENTS.md` path as shown and its text.
pub open spec fn ancestor_source(a: Seq<(Seq<char>, Option<Seq<char>>)>, i: int) -> Seq<(ContextKind, Seq<char>, Seq<char>)> {
    match a[i].1 {
        Some(t) => seq![(ContextKind::Project, "Project instructions: "@ + a[i].0, t)],
        None => Seq::empty(),
    }
}

/// The `AGENTS.md` sources of the ancestors from `n - 1` down to `k`.
pub open spec fn sources_from(a: Seq<(Seq<char>, Option<Seq<char>>)>, k: int, n: int) -> Seq<(ContextKind, Seq<char>, Seq<char>)>
    decreases n - k,
{
    if k < 0 || n <= k || n > a.len() {
        Seq::empty()
    } else {
        ancestor_source(a, n - 1) + sources_from(a, k, n - 1)
    }
}

/// The `AGENTS.md` sources of the searched ancestors (the workspace first),
/// outermost first.
pub open spec fn project_sources(a: Seq<(Seq<char>, Option<Seq<char>>)>) -> Seq<(ContextKind, Seq<char>, Seq<char>)> {
    sources_from(a, 0, a.len() as int)
}

proof fn lemma_sources_low(a: Seq<(Seq<char>, Option<Seq<char>>)>, k: int, n: int)
    requires
        0 < k <= n <= a.len(),
    ensures
        sources_from(a, k - 1, n) == sources_from(a, k, n) + ancestor_source(a, k - 1),
    decreases n - k,
{
    if n == k {
        assert(sources_from(a, k - 1, k - 1) =~= Seq::<(ContextKind, Seq<char>, Seq<char>)>::empty());
        assert(sources_from(a, k, n) =~= Seq::<(ContextKind, Seq<char>, Seq<char>)>::empty());
        assert(sources_from(a, k - 1, n) =~= ancestor_source(a, k - 1) + Seq::empty());
    } else {
        lemma_sources_low(a, k, n - 1);
        assert(sources_from(a, k - 1, n) =~= sources_from(a, k, n) + ancestor_source(a, k - 1));
    }
}

/// The instructions of a workspace in the order they are appended: the
/// system prompt, the execution environment, the global `AGENTS.md`, the
/// `AGENTS.md` of the searched ancestors from the outermost in, and the
/// skill catalog when it is not empty.
pub open spec fn context_sources_spec(
    system_prompt: Seq<char>,
    workspace: Seq<char>,
    global_agents: Option<Seq<char>>,
    ancestors: Seq<(Seq<char>, Option<Seq<char>>)>,
    catalog: Seq<char>,
) -> Seq<(ContextKind, Seq<char>, Seq<char>)> {
    let head = seq![
        (ContextKind::System, "Antex"@, system_prompt),
        (ContextKind::System, "Execution environment"@, environment_spec(workspace)),
    ];
    let global = match global_agents {
        Some(g) => seq![(ContextKind::Project, "Global AGENTS.md"@, g)],
        None => Seq::empty(),
    };
    let skills = if catalog.len() > 0 {
        seq![(ContextKind::Skill, "Available skills — read SKILL.md before acting"@, catalog)]
    } else {
        Seq::empty()
    };
    head + global + project_sources(ancestors) + skills
}

/// The view of the ancestors given to [`context_sources`].
pub open spec fn ancestors_view(ancestors: Seq<(String, Option<String>)>) -> Seq<(Seq<char>, Option<Seq<char>>)> {
    ancestors.map_values(
        |a: (String, Option<String>)|
            (
                a.0@,
                match a.1 {
                    Some(t) => Some(t@),
                    None => None,
                },
            ),
    )
}

fn copy_string(s: &String) -> (r: String)
    ensures
        r@ == s@,
{
    owned(s.as_str())
}

/// The instruction sources of a workspace, in the order they are appended
/// (see [`context_sources_spec`]); `ancestors` holds the searched
/// directories, the workspace first.
pub fn context_sources(
    system_prompt: &str,
    workspace: &str,
    global_agents: Option<&str>,
    ancestors: &[(String, Option<String>)],
    catalog: &str,
) -> (r: Vec<ContextSource>)
    ensures
        r@.map_values(|s: ContextSource| source_view(s)) == context_sources_spec(
            system_prompt@,
            workspace@,
            match global_agents {
                Some(g) => Some(g@),
                None => None,
            },
            ancestors_view(ancestors@),
            catalog@,
        ),
{
    let mut r: Vec<ContextSource> = Vec::new();
    r.push((ContextKind::System, owned("Antex"), owned(system_prompt)));
    r.push((ContextKind::System, owned("Execution environment"), environment_text(workspace)));
    if let Some(g) = global_agents {
        r.push((ContextKind::Project, owned("Global AGENTS.md"), owned(g)));
    }
    let ghost fixed = r@.map_values(|s: ContextSource| source_view(s));
    proof {
        let global = match global_agents {
            Some(g) => seq![(ContextKind::Project, "Global AGENTS.md"@, g@)],
            None => Seq::empty(),
        };
        assert(fixed =~= seq![
            (ContextKind::System, "Antex"@, system_prompt@),
            (ContextKind::System, "Execution environment"@, environment_spec(workspace@)),
        ] + global);
    }
    let ghost av = ancestors_view(ancestors@);
    let n = ancestors.len();
    let mut k: usize = n;
    proof {
        assert(r@.map_values(|s: ContextSource| source_view(s)) =~= fixed + sources_from(av, k as int, n as int));
    }
    while k > 0
        invariant
            av == ancestors_view(ancestors@),
            n == ancestors@.len(),
            k <= n,
            r@.map_values(|s: ContextSource| source_view(s)) == fixed + sources_from(av, k as int, n as int),
        decreases k,
    {
        proof {
            lemma_sources_low(av, k as int, n as int);
        }
        k = k - 1;
        let ghost before = r@.map_values(|s: ContextSource| source_view(s));
        let (path, text) = &ancestors[k];
        proof {
            assert(av[k as int].0 == path@);
        }
        if let Some(t) = text {
            let mut source = owned("Project instructions: ");
            source.append(path.as_str());
            r.push((ContextKind::Project, source, copy_string(t)));
            proof {
                assert(av[k as int].1 == Some(t@));
                assert(r@.map_values(|s: ContextSource| source_view(s)) =~= before + ancestor_source(av, k as int));
            }
        } else {
            proof {
                assert(av[k as int].1 is None);
                assert(before =~= before + ancestor_source(av, k as int));
            }
        }
    }
    let ghost mid = r@.map_values(|s: ContextSource| source_view(s));
    let ghost gv = match global_agents {
        Some(g) => Some(g@),
        None => None,
    };
    proof {
        assert(mid == fixed + project_sources(av));
    }
    let catalog_chars = str_chars(catalog);
    if catalog_chars.len() > 0 {
        r.push((ContextKind::Skill, owned("Available skills — read SKILL.md before acting"), owned(catalog)));
        proof {
            assert(r@.map_values(|s: ContextSource| source_view(s)) =~= mid + seq![
                (ContextKind::Skill, "Available skills — read SKILL.md before acting"@, catalog@),
            ]);
            assert(r@.map_values(|s: ContextSource| source_view(s)) =~= context_sources_spec(
                system_prompt@,
                workspace@,
                gv,
                av,
                catalog@,
            ));
        }
    } else {
        proof {
            assert(mid =~= mid + Seq::<(ContextKind, Seq<char>, Seq<char>)>::empty());
            assert(catalog@.len() == 0);
            assert(r@.map_values(|s: ContextSource| source_view(s)) =~= context_sources_spec(
                system_prompt@,
                workspace@,
                gv,
                av,
                catalog@,
            ));
        }
    }
    r
}

} // verus!

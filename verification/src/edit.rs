//! Replacing one unique occurrence of a text in a file, independent of the
//! line-ending convention of either side: the match is found on text with
//! every line break read as `\n`, and the replacement takes on the file's own
//! line ending.

use vstd::prelude::*;
use vstd::string::*;
use crate::text::{owned, push_char, str_chars};

verus! {

/// `s` with every line break (`\r\n`, a lone `\r`, or `\n`) written as `ending`.
pub open spec fn with_line_endings(s: Seq<char>, ending: Seq<char>) -> Seq<char>
    decreases s.len(),
{
    if s.len() == 0 {
        Seq::empty()
    } else if s[0] == '\r' && s.len() > 1 && s[1] == '\n' {
        ending + with_line_endings(s.skip(2), ending)
    } else if s[0] == '\r' || s[0] == '\n' {
        ending + with_line_endings(s.skip(1), ending)
    } else {
        seq![s[0]] + with_line_endings(s.skip(1), ending)
    }
}

/// `s` with every line break read as `\n`.
pub open spec fn normalize(s: Seq<char>) -> Seq<char> {
    with_line_endings(s, seq!['\n'])
}

/// The number of characters of `s` that make up the first `k` characters of
/// its normalized form.
pub open spec fn source_offset(s: Seq<char>, k: nat) -> nat
    decreases k,
{
    if k == 0 || s.len() == 0 {
        0
    } else if s[0] == '\r' && s.len() > 1 && s[1] == '\n' {
        2 + source_offset(s.skip(2), (k - 1) as nat)
    } else {
        1 + source_offset(s.skip(1), (k - 1) as nat)
    }
}

/// Whether `needle` occurs in `hay` at position `i`.
pub open spec fn occurs_at(hay: Seq<char>, needle: Seq<char>, i: int) -> bool {
    0 <= i && i + needle.len() <= hay.len() && hay.subrange(i, i + needle.len()) == needle
}

/// The first position at or after `i` where `needle` occurs.
pub open spec fn first_from(hay: Seq<char>, needle: Seq<char>, i: int) -> Option<int>
    decreases hay.len() + 1 - i,
{
    if i < 0 || i + needle.len() > hay.len() {
        None
    } else if occurs_at(hay, needle, i) {
        Some(i)
    } else {
        first_from(hay, needle, i + 1)
    }
}

/// The last position at or before `i` where `needle` occurs.
pub open spec fn last_from(hay: Seq<char>, needle: Seq<char>, i: int) -> Option<int>
    decreases i + 1,
{
    if i < 0 {
        None
    } else if occurs_at(hay, needle, i) {
        Some(i)
    } else {
        last_from(hay, needle, i - 1)
    }
}

/// The last position where `needle` occurs.
pub open spec fn last_occurrence(hay: Seq<char>, needle: Seq<char>) -> Option<int> {
    last_from(hay, needle, hay.len() - needle.len())
}

/// The line ending a file uses, from its first line break; `\n` when it has none.
pub open spec fn line_ending(s: Seq<char>) -> Seq<char>
    decreases s.len(),
{
    if s.len() == 0 {
        seq!['\n']
    } else if s[0] == '\n' {
        seq!['\n']
    } else if s[0] == '\r' {
        if s.len() > 1 && s[1] == '\n' {
            seq!['\r', '\n']
        } else {
            seq!['\r']
        }
    } else {
        line_ending(s.skip(1))
    }
}

/// The outcome of replacing the unique occurrence of `old` in `source` by `new`.
pub open spec fn replace_unique_spec(source: Seq<char>, old: Seq<char>, new: Seq<char>) -> Result<
    Seq<char>,
    Seq<char>,
> {
    if old.len() == 0 {
        Err("edit requires nonempty original text"@)
    } else {
        let hay = normalize(source);
        let needle = normalize(old);
        match first_from(hay, needle, 0) {
            None => Err("original text was not found"@),
            Some(start) => if last_occurrence(hay, needle) != Some(start) {
                Err("original text is ambiguous; include more context"@)
            } else {
                let from = source_offset(source, start as nat);
                let to = source_offset(source, (start + needle.len()) as nat);
                Ok(source.take(from as int) + with_line_endings(new, line_ending(source)) + source.skip(
                    to as int,
                ))
            },
        }
    }
}

proof fn lemma_skip_skip(s: Seq<char>, a: int, b: int)
    requires
        0 <= a,
        0 <= b,
        a + b <= s.len(),
    ensures
        s.skip(a).skip(b) == s.skip(a + b),
{
    assert(s.skip(a).skip(b) =~= s.skip(a + b));
}

/// A non-empty text has a non-empty normalized form.
proof fn lemma_nonempty(s: Seq<char>, e: Seq<char>)
    requires
        s.len() > 0,
        e.len() > 0,
    ensures
        with_line_endings(s, e).len() > 0,
{
}

/// `s` with every line break written as `ending`.
fn rewrite_line_breaks(s: &Vec<char>, ending: &[char]) -> (r: Vec<char>)
    ensures
        r@ == with_line_endings(s@, ending@),
{
    let mut r: Vec<char> = Vec::new();
    let mut i: usize = 0;
    let n = s.len();
    proof {
        assert(s@.skip(0) =~= s@);
        assert(r@ + with_line_endings(s@, ending@) =~= with_line_endings(s@, ending@));
    }
    while i < n
        invariant
            n == s@.len(),
            0 <= i <= n,
            r@ + with_line_endings(s@.skip(i as int), ending@) == with_line_endings(s@, ending@),
        decreases n - i,
    {
        let ghost rest = s@.skip(i as int);
        let ghost before = r@;
        let c = s[i];
        proof {
            assert(rest[0] == c);
        }
        if c == '\r' && i + 1 < n && s[i + 1] == '\n' {
            proof {
                assert(rest[1] == s@[i + 1]);
                lemma_skip_skip(s@, i as int, 2);
            }
            let mut j: usize = 0;
            while j < ending.len()
                invariant
                    0 <= j <= ending@.len(),
                    r@ == before + ending@.take(j as int),
                decreases ending@.len() - j,
            {
                r.push(ending[j]);
                proof {
                    assert(before + ending@.take(j as int) + seq![ending@[j as int]] =~= before
                        + ending@.take(j + 1));
                }
                j = j + 1;
            }
            proof {
                assert(ending@.take(ending@.len() as int) =~= ending@);
                assert(before + ending@ + with_line_endings(s@.skip(i + 2), ending@) =~= before + (
                ending@ + with_line_endings(s@.skip(i + 2), ending@)));
            }
            i = i + 2;
        } else if c == '\r' || c == '\n' {
            proof {
                lemma_skip_skip(s@, i as int, 1);
            }
            let mut j: usize = 0;
            while j < ending.len()
                invariant
                    0 <= j <= ending@.len(),
                    r@ == before + ending@.take(j as int),
                decreases ending@.len() - j,
            {
                r.push(ending[j]);
                proof {
                    assert(before + ending@.take(j as int) + seq![ending@[j as int]] =~= before
                        + ending@.take(j + 1));
                }
                j = j + 1;
            }
            proof {
                assert(ending@.take(ending@.len() as int) =~= ending@);
                assert(before + ending@ + with_line_endings(s@.skip(i + 1), ending@) =~= before + (
                ending@ + with_line_endings(s@.skip(i + 1), ending@)));
            }
            i = i + 1;
        } else {
            proof {
                lemma_skip_skip(s@, i as int, 1);
            }
            r.push(c);
            proof {
                assert(before.push(c) + with_line_endings(s@.skip(i + 1), ending@) =~= before + (seq![c]
                    + with_line_endings(s@.skip(i + 1), ending@)));
            }
            i = i + 1;
        }
    }
    proof {
        assert(s@.skip(n as int) =~= Seq::<char>::empty());
        assert(r@ + Seq::<char>::empty() =~= r@);
    }
    r
}

/// Whether `needle` occurs in `hay` at position `i`.
fn matches_at(hay: &Vec<char>, needle: &Vec<char>, i: usize) -> (r: bool)
    requires
        i + needle@.len() <= hay@.len(),
    ensures
        r == occurs_at(hay@, needle@, i as int),
{
    let hay_len = hay.len();
    let mut j: usize = 0;
    while j < needle.len()
        invariant
            hay_len == hay@.len(),
            i + needle@.len() <= hay@.len(),
            0 <= j <= needle@.len(),
            forall|k: int| 0 <= k < j ==> hay@[i + k] == needle@[k],
        decreases needle@.len() - j,
    {
        if hay[i + j] != needle[j] {
            proof {
                assert(hay@.subrange(i as int, i + needle@.len())[j as int] != needle@[j as int]);
            }
            return false;
        }
        j = j + 1;
    }
    proof {
        assert(hay@.subrange(i as int, i + needle@.len()) =~= needle@);
    }
    true
}

fn find_first(hay: &Vec<char>, needle: &Vec<char>) -> (r: Option<usize>)
    requires
        needle@.len() > 0,
    ensures
        match r {
            Some(i) => first_from(hay@, needle@, 0) == Some(i as int),
            None => first_from(hay@, needle@, 0) is None,
        },
{
    if needle.len() > hay.len() {
        return None;
    }
    let n = hay.len();
    let last_start = n - needle.len();
    let mut i: usize = 0;
    while i <= last_start
        invariant
            n == hay@.len(),
            needle@.len() > 0,
            needle@.len() <= hay@.len(),
            last_start == hay@.len() - needle@.len(),
            0 <= i <= last_start + 1,
            first_from(hay@, needle@, 0) == first_from(hay@, needle@, i as int),
        decreases last_start + 1 - i,
    {
        if matches_at(hay, needle, i) {
            return Some(i);
        }
        i = i + 1;
    }
    None
}

fn find_last(hay: &Vec<char>, needle: &Vec<char>) -> (r: Option<usize>)
    requires
        needle@.len() <= hay@.len(),
    ensures
        match r {
            Some(i) => last_occurrence(hay@, needle@) == Some(i as int),
            None => last_occurrence(hay@, needle@) is None,
        },
{
    let mut i: usize = hay.len() - needle.len();
    loop
        invariant
            needle@.len() <= hay@.len(),
            i + needle@.len() <= hay@.len(),
            last_occurrence(hay@, needle@) == last_from(hay@, needle@, i as int),
        decreases i,
    {
        if matches_at(hay, needle, i) {
            return Some(i);
        }
        if i == 0 {
            proof {
                assert(last_from(hay@, needle@, -1) is None);
            }
            return None;
        }
        i = i - 1;
    }
}

/// The number of characters of `s` that make up the first `k` characters of
/// its normalized form.
fn offset_in_source(s: &Vec<char>, k: usize) -> (r: usize)
    requires
        k <= normalize(s@).len(),
    ensures
        r == source_offset(s@, k as nat),
        r <= s@.len(),
{
    let mut offset: usize = 0;
    let mut count: usize = 0;
    let n = s.len();
    proof {
        assert(s@.skip(0) =~= s@);
    }
    while count < k
        invariant
            n == s@.len(),
            offset <= n,
            count <= k,
            k <= normalize(s@).len(),
            normalize(s@.skip(offset as int)).len() + count == normalize(s@).len(),
            source_offset(s@, k as nat) == offset + source_offset(s@.skip(offset as int), (k - count) as nat),
        decreases k - count,
    {
        let ghost rest = s@.skip(offset as int);
        if offset == n {
            proof {
                assert(rest =~= Seq::<char>::empty());
            }
        }
        proof {
            assert(rest[0] == s@[offset as int]);
        }
        if s[offset] == '\r' && offset + 1 < n && s[offset + 1] == '\n' {
            proof {
                assert(rest[1] == s@[offset + 1]);
                lemma_skip_skip(s@, offset as int, 2);
            }
            offset = offset + 2;
        } else {
            proof {
                lemma_skip_skip(s@, offset as int, 1);
            }
            offset = offset + 1;
        }
        count = count + 1;
    }
    proof {
        assert(source_offset(s@.skip(offset as int), 0) == 0);
    }
    offset
}

/// The line ending a file uses, from its first line break.
fn detect_line_ending(s: &Vec<char>) -> (r: Vec<char>)
    ensures
        r@ == line_ending(s@),
{
    let mut i: usize = 0;
    let n = s.len();
    proof {
        assert(s@.skip(0) =~= s@);
    }
    while i < n
        invariant
            n == s@.len(),
            0 <= i <= n,
            line_ending(s@) == line_ending(s@.skip(i as int)),
        decreases n - i,
    {
        let ghost rest = s@.skip(i as int);
        proof {
            assert(rest[0] == s@[i as int]);
        }
        if s[i] == '\n' {
            return vec!['\n'];
        }
        if s[i] == '\r' {
            if i + 1 < n && s[i + 1] == '\n' {
                proof {
                    assert(rest[1] == s@[i + 1]);
                }
                return vec!['\r', '\n'];
            }
            return vec!['\r'];
        }
        proof {
            lemma_skip_skip(s@, i as int, 1);
        }
        i = i + 1;
    }
    proof {
        assert(s@.skip(n as int) =~= Seq::<char>::empty());
    }
    vec!['\n']
}

/// Replace the one occurrence of `old` in `source` by `new`. Line breaks of
/// either convention match each other; the replacement uses the line ending
/// of `source`. Fails when `old` is empty, does not occur, or occurs more
/// than once.
pub fn replace_unique(source: &str, old: &str, new: &str) -> (r: Result<String, String>)
    ensures
        match r {
            Ok(s) => replace_unique_spec(source@, old@, new@) == Ok::<Seq<char>, Seq<char>>(s@),
            Err(e) => replace_unique_spec(source@, old@, new@) == Err::<Seq<char>, Seq<char>>(e@),
        },
{
    let old_chars = str_chars(old);
    if old_chars.len() == 0 {
        return Err(owned("edit requires nonempty original text"));
    }
    let source_chars = str_chars(source);
    let newline = ['\n'];
    proof {
        assert(newline@ =~= seq!['\n']);
    }
    let hay = rewrite_line_breaks(&source_chars, &newline);
    let needle = rewrite_line_breaks(&old_chars, &newline);
    proof {
        lemma_nonempty(old@, seq!['\n']);
    }
    let start = match find_first(&hay, &needle) {
        None => return Err(owned("original text was not found")),
        Some(start) => start,
    };
    proof {
        assert(occurs_at(hay@, needle@, start as int)) by {
            lemma_first_occurs(hay@, needle@, 0);
        }
    }
    match find_last(&hay, &needle) {
        Some(last) => {
            if last != start {
                return Err(owned("original text is ambiguous; include more context"));
            }
        },
        None => {
            return Err(owned("original text is ambiguous; include more context"));
        },
    }
    let hay_len = hay.len();
    let from = offset_in_source(&source_chars, start);
    let to = offset_in_source(&source_chars, start + needle.len());
    let ending = detect_line_ending(&source_chars);
    let replacement = rewrite_line_breaks(&crate::text::str_chars(new), ending.as_slice());
    let mut result = String::new();
    result.append(source.substring_char(0, from));
    let mut i: usize = 0;
    while i < replacement.len()
        invariant
            0 <= i <= replacement@.len(),
            result@ == source@.take(from as int) + replacement@.take(i as int),
        decreases replacement@.len() - i,
    {
        push_char(&mut result, replacement[i]);
        proof {
            assert(replacement@.take(i as int).push(replacement@[i as int]) =~= replacement@.take(i + 1));
            assert(source@.take(from as int) + replacement@.take(i as int).push(replacement@[i as int])
                =~= (source@.take(from as int) + replacement@.take(i as int)).push(replacement@[i as int]));
        }
        i = i + 1;
    }
    result.append(source.substring_char(to, source.unicode_len()));
    proof {
        assert(replacement@.take(replacement@.len() as int) =~= replacement@);
        assert(source@.subrange(0, from as int) =~= source@.take(from as int));
        assert(source@.subrange(to as int, source@.len() as int) =~= source@.skip(to as int));
    }
    Ok(result)
}

/// The first occurrence found from `i` is the least one at or after `i`.
proof fn lemma_first_from_least(hay: Seq<char>, needle: Seq<char>, i: int)
    requires
        i >= 0,
    ensures
        first_from(hay, needle, i) matches Some(s) ==> i <= s && occurs_at(hay, needle, s) && forall|k: int|
            i <= k < s ==> !#[trigger] occurs_at(hay, needle, k),
        first_from(hay, needle, i) is None ==> forall|k: int| i <= k ==> !#[trigger] occurs_at(hay, needle, k),
    decreases hay.len() + 1 - i,
{
    if i + needle.len() > hay.len() {
    } else if occurs_at(hay, needle, i) {
    } else {
        lemma_first_from_least(hay, needle, i + 1);
    }
}

/// The last occurrence found up to `i` is the greatest one at or before `i`.
proof fn lemma_last_from_greatest(hay: Seq<char>, needle: Seq<char>, i: int)
    ensures
        last_from(hay, needle, i) matches Some(t) ==> t <= i && occurs_at(hay, needle, t) && forall|k: int|
            t < k <= i ==> !#[trigger] occurs_at(hay, needle, k),
        last_from(hay, needle, i) is None ==> forall|k: int| k <= i ==> !#[trigger] occurs_at(hay, needle, k),
    decreases i + 1,
{
    if i < 0 {
    } else if occurs_at(hay, needle, i) {
    } else {
        lemma_last_from_greatest(hay, needle, i - 1);
    }
}

/// A unique replacement is refused exactly when the text to replace is
/// empty, when its normalized form does not occur in the normalized file, or
/// when it occurs there at two different positions, overlapping ones
/// included.
pub proof fn lemma_replace_unique_refusals(source: Seq<char>, old: Seq<char>, new: Seq<char>)
    ensures
        replace_unique_spec(source, old, new) is Err <==> (old.len() == 0 || !(exists|k: int|
            #[trigger] occurs_at(normalize(source), normalize(old), k)) || exists|k1: int, k2: int|
            k1 != k2 && #[trigger] occurs_at(normalize(source), normalize(old), k1)
                && #[trigger] occurs_at(normalize(source), normalize(old), k2)),
{
    let hay = normalize(source);
    let needle = normalize(old);
    lemma_first_from_least(hay, needle, 0);
    lemma_last_from_greatest(hay, needle, hay.len() - needle.len());
    assert forall|k: int| #[trigger] occurs_at(hay, needle, k) implies k <= hay.len() - needle.len() by {}
    if old.len() > 0 {
        match first_from(hay, needle, 0) {
            None => {},
            Some(s) => {
                let t = last_occurrence(hay, needle)->0;
                if t != s {
                    assert(occurs_at(hay, needle, s) && occurs_at(hay, needle, t));
                } else {
                    assert forall|k1: int, k2: int|
                        k1 != k2 && #[trigger] occurs_at(hay, needle, k1) implies !#[trigger] occurs_at(
                        hay,
                        needle,
                        k2,
                    ) by {
                        assert(k1 == s);
                    }
                }
            },
        }
    }
}

/// An offset into the normalized text falls within the file.
proof fn lemma_offset_bound(s: Seq<char>, k: nat)
    ensures
        source_offset(s, k) <= s.len(),
    decreases k,
{
    if k == 0 || s.len() == 0 {
    } else if s[0] == '\r' && s.len() > 1 && s[1] == '\n' {
        lemma_offset_bound(s.skip(2), (k - 1) as nat);
    } else {
        lemma_offset_bound(s.skip(1), (k - 1) as nat);
    }
}

/// Offsets add up: going `a + c` normalized characters into the file goes
/// `a` of them, then `c` more from there.
proof fn lemma_offset_add(s: Seq<char>, a: nat, c: nat)
    ensures
        source_offset(s, a + c) == source_offset(s, a) + source_offset(s.skip(source_offset(s, a) as int), c),
    decreases a,
{
    lemma_offset_bound(s, a);
    if a == 0 || s.len() == 0 {
        assert(s.skip(0) =~= s);
    } else if s[0] == '\r' && s.len() > 1 && s[1] == '\n' {
        let s2 = s.skip(2);
        lemma_offset_add(s2, (a - 1) as nat, c);
        lemma_offset_bound(s2, (a - 1) as nat);
        assert(((a + c) - 1) as nat == ((a - 1) as nat + c) as nat);
        lemma_skip_skip(s, 2, source_offset(s2, (a - 1) as nat) as int);
    } else {
        let s1 = s.skip(1);
        lemma_offset_add(s1, (a - 1) as nat, c);
        lemma_offset_bound(s1, (a - 1) as nat);
        assert(((a + c) - 1) as nat == ((a - 1) as nat + c) as nat);
        lemma_skip_skip(s, 1, source_offset(s1, (a - 1) as nat) as int);
    }
}

/// The file from the offset of `k` normalized characters on reads as the
/// normalized text from `k` on.
proof fn lemma_normalize_skip(s: Seq<char>, k: nat)
    requires
        k <= normalize(s).len(),
    ensures
        normalize(s.skip(source_offset(s, k) as int)) == normalize(s).skip(k as int),
    decreases k,
{
    lemma_offset_bound(s, k);
    if k == 0 {
        assert(s.skip(0) =~= s);
        assert(normalize(s).skip(0) =~= normalize(s));
    } else {
        assert(s.len() > 0);
        if s[0] == '\r' && s.len() > 1 && s[1] == '\n' {
            let s2 = s.skip(2);
            assert(normalize(s) == seq!['\n'] + normalize(s2));
            lemma_normalize_skip(s2, (k - 1) as nat);
            lemma_offset_bound(s2, (k - 1) as nat);
            lemma_skip_skip(s, 2, source_offset(s2, (k - 1) as nat) as int);
            assert(normalize(s).skip(k as int) =~= normalize(s2).skip(k - 1));
        } else {
            let s1 = s.skip(1);
            assert(normalize(s) == (if s[0] == '\r' || s[0] == '\n' { seq!['\n'] } else { seq![s[0]] })
                + normalize(s1));
            lemma_normalize_skip(s1, (k - 1) as nat);
            lemma_offset_bound(s1, (k - 1) as nat);
            lemma_skip_skip(s, 1, source_offset(s1, (k - 1) as nat) as int);
            assert(normalize(s).skip(k as int) =~= normalize(s1).skip(k - 1));
        }
    }
}

/// The file up to the offset of `k` normalized characters reads as the
/// first `k` normalized characters.
proof fn lemma_normalize_take(s: Seq<char>, k: nat)
    requires
        k <= normalize(s).len(),
    ensures
        normalize(s.take(source_offset(s, k) as int)) == normalize(s).take(k as int),
    decreases k,
{
    lemma_offset_bound(s, k);
    if k == 0 {
        assert(s.take(0) =~= Seq::<char>::empty());
        assert(normalize(s).take(0) =~= Seq::<char>::empty());
    } else {
        assert(s.len() > 0);
        let t = s.take(source_offset(s, k) as int);
        if s[0] == '\r' && s.len() > 1 && s[1] == '\n' {
            let s2 = s.skip(2);
            let o = source_offset(s2, (k - 1) as nat);
            lemma_offset_bound(s2, (k - 1) as nat);
            assert(normalize(s) == seq!['\n'] + normalize(s2));
            lemma_normalize_take(s2, (k - 1) as nat);
            assert(t.skip(2) =~= s2.take(o as int));
            assert(t[0] == '\r' && t.len() > 1 && t[1] == '\n');
            assert(normalize(t) == seq!['\n'] + normalize(t.skip(2)));
            assert(normalize(s).take(k as int) =~= seq!['\n'] + normalize(s2).take(k - 1));
        } else {
            let s1 = s.skip(1);
            let o = source_offset(s1, (k - 1) as nat);
            lemma_offset_bound(s1, (k - 1) as nat);
            let first = if s[0] == '\r' || s[0] == '\n' { seq!['\n'] } else { seq![s[0]] };
            assert(normalize(s) == first + normalize(s1));
            lemma_normalize_take(s1, (k - 1) as nat);
            assert(t.skip(1) =~= s1.take(o as int));
            assert(t[0] == s[0]);
            assert(!(t[0] == '\r' && t.len() > 1 && t[1] == '\n'));
            assert(normalize(t) == first + normalize(t.skip(1)));
            assert(normalize(s).take(k as int) =~= first + normalize(s1).take(k - 1));
        }
    }
}

/// Whether `e` is a line ending: `\n`, `\r\n` or `\r`.
pub open spec fn is_line_ending(e: Seq<char>) -> bool {
    e == seq!['\n'] || e == seq!['\r', '\n'] || e == seq!['\r']
}

/// A file's line ending is one of the three.
proof fn lemma_line_ending_is_one(s: Seq<char>)
    ensures
        is_line_ending(line_ending(s)),
    decreases s.len(),
{
    if s.len() > 0 && s[0] != '\n' && s[0] != '\r' {
        lemma_line_ending_is_one(s.skip(1));
    }
}

/// Text written with a lone `\r` as its line ending does not begin with `\n`.
proof fn lemma_written_start(s: Seq<char>, e: Seq<char>)
    requires
        is_line_ending(e),
    ensures
        with_line_endings(s, e).len() > 0 ==> (e == seq!['\r'] ==> with_line_endings(s, e)[0] != '\n'),
        with_line_endings(s, e).len() == 0 <==> s.len() == 0,
{
    if s.len() > 0 {
        if s[0] == '\r' && s.len() > 1 && s[1] == '\n' {
            assert(with_line_endings(s, e) == e + with_line_endings(s.skip(2), e));
        } else if s[0] == '\r' || s[0] == '\n' {
            assert(with_line_endings(s, e) == e + with_line_endings(s.skip(1), e));
        } else {
            assert(with_line_endings(s, e) == seq![s[0]] + with_line_endings(s.skip(1), e));
        }
    }
}

proof fn lemma_normalize_after_ending(e: Seq<char>, x: Seq<char>)
    requires
        is_line_ending(e),
        e == seq!['\r'] ==> (x.len() == 0 || x[0] != '\n'),
    ensures
        normalize(e + x) == seq!['\n'] + normalize(x),
{
    let t = e + x;
    if e == seq!['\r', '\n'] {
        assert(t[0] == '\r' && t[1] == '\n');
        assert(t.skip(2) =~= x);
    } else {
        assert(t.skip(1) =~= x);
        assert(t[0] == e[0]);
        if e == seq!['\r'] && t.len() > 1 {
            assert(t[1] == x[0]);
        }
    }
}

/// Writing a text's line breaks as any one line ending leaves its
/// normalized form as it was.
pub proof fn lemma_written_line_endings_normalize(s: Seq<char>, e: Seq<char>)
    requires
        is_line_ending(e),
    ensures
        normalize(with_line_endings(s, e)) == normalize(s),
    decreases s.len(),
{
    if s.len() > 0 {
        if s[0] == '\r' && s.len() > 1 && s[1] == '\n' {
            let rest = with_line_endings(s.skip(2), e);
            lemma_written_line_endings_normalize(s.skip(2), e);
            lemma_written_start(s.skip(2), e);
            lemma_normalize_after_ending(e, rest);
        } else if s[0] == '\r' || s[0] == '\n' {
            let rest = with_line_endings(s.skip(1), e);
            lemma_written_line_endings_normalize(s.skip(1), e);
            lemma_written_start(s.skip(1), e);
            lemma_normalize_after_ending(e, rest);
        } else {
            let rest = with_line_endings(s.skip(1), e);
            lemma_written_line_endings_normalize(s.skip(1), e);
            let t = seq![s[0]] + rest;
            assert(t.skip(1) =~= rest);
            assert(t[0] == s[0]);
        }
    }
}

/// A unique replacement keeps the file around one match: on success the
/// result is the file up to some position `s`, then the new text with each
/// line break written as the file's own line ending, then the file from
/// some position `e` on, where the file's text between `s` and `e` reads as
/// the text to replace once line breaks are normalized; the new text so
/// written reads as the new text once line breaks are normalized.
pub proof fn lemma_replace_unique_success(source: Seq<char>, old: Seq<char>, new: Seq<char>)
    requires
        replace_unique_spec(source, old, new) is Ok,
    ensures
        normalize(with_line_endings(new, line_ending(source))) == normalize(new),
        exists|s: int, e: int|
            0 <= s <= e <= source.len() && #[trigger] normalize(source.subrange(s, e)) == normalize(old)
                && replace_unique_spec(source, old, new) == Ok::<Seq<char>, Seq<char>>(
                source.take(s) + with_line_endings(new, line_ending(source)) + source.skip(e),
            ),
{
    lemma_line_ending_is_one(source);
    lemma_written_line_endings_normalize(new, line_ending(source));
    let hay = normalize(source);
    let needle = normalize(old);
    lemma_first_occurs(hay, needle, 0);
    let start = first_from(hay, needle, 0)->0;
    let n = needle.len();
    let from = source_offset(source, start as nat);
    let to = source_offset(source, (start + n) as nat);
    lemma_offset_add(source, start as nat, n);
    assert((start + n) as nat == (start as nat + n) as nat);
    lemma_offset_bound(source, start as nat);
    lemma_offset_bound(source, (start + n) as nat);
    lemma_normalize_skip(source, start as nat);
    let rest = source.skip(from as int);
    lemma_normalize_take(rest, n);
    assert(source.subrange(from as int, to as int) =~= rest.take(to - from));
    assert(hay.skip(start).take(n as int) =~= hay.subrange(start, start + n));
    assert(normalize(source.subrange(from as int, to as int)) == needle);
}

/// The first occurrence found from `i` is an occurrence.
proof fn lemma_first_occurs(hay: Seq<char>, needle: Seq<char>, i: int)
    requires
        first_from(hay, needle, i) is Some,
    ensures
        occurs_at(hay, needle, first_from(hay, needle, i)->0),
        first_from(hay, needle, i)->0 >= i,
    decreases hay.len() + 1 - i,
{
    if i < 0 || i + needle.len() > hay.len() {
    } else if occurs_at(hay, needle, i) {
    } else {
        lemma_first_occurs(hay, needle, i + 1);
    }
}

} // verus!

//! The skill catalog: the one-line description that each `SKILL.md`
//! declares in its `description:` field.

use vstd::prelude::*;
use crate::text::{
    char_utf8_len, has_prefix_at, is_white_space, is_whitespace_char, lines_spec, skip_white_space,
    str_chars, string_from_chars, text_lines, trim_end_at, trim_spec, utf8_len,
};

verus! {

/// A description is cut once it passes this many bytes.
pub const MAX_DESCRIPTION_BYTES: u128 = 640;

/// The catalog shows at most this many characters of a description.
pub const DESCRIPTION_CHARS: usize = 160;

/// Whether `c` is a quote that a description value loses at its ends.
pub open spec fn is_quote(c: char) -> bool {
    c == '\'' || c == '"'
}

/// The first position at or after `i` that is not a quote (or the end).
pub open spec fn skip_quotes(s: Seq<char>, i: int) -> int
    decreases s.len() - i,
{
    if i < 0 || i >= s.len() || !is_quote(s[i]) {
        i
    } else {
        skip_quotes(s, i + 1)
    }
}

/// The end of `s[..j]` without its trailing quotes.
pub open spec fn trim_quotes_end(s: Seq<char>, j: int) -> int
    decreases j,
{
    if j <= 0 || j > s.len() || !is_quote(s[j - 1]) {
        j
    } else {
        trim_quotes_end(s, j - 1)
    }
}

/// `s` without the quotes at its ends (`trim_matches(['\'', '"'])`).
pub open spec fn trim_quotes(s: Seq<char>) -> Seq<char> {
    let a = skip_quotes(s, 0);
    let b = trim_quotes_end(s, s.len() as int);
    if a >= b {
        Seq::empty()
    } else {
        s.subrange(a, b)
    }
}

/// The key of the description field.
pub open spec fn description_key() -> Seq<char> {
    seq!['d', 'e', 's', 'c', 'r', 'i', 'p', 't', 'i', 'o', 'n', ':']
}

/// Whether a description value announces a block of indented lines (`>`,
/// `|`, `>-` or `|-`).
pub open spec fn is_block_marker(v: Seq<char>) -> bool {
    v == seq!['>'] || v == seq!['|'] || v == seq!['>', '-'] || v == seq!['|', '-']
}

/// Whether a line is indented by a space or a tab.
pub open spec fn is_indented(line: Seq<char>) -> bool {
    line.len() > 0 && (line[0] == ' ' || line[0] == '\t')
}

/// The block description from line `j` on: each indented line, trimmed and
/// followed by a space, until a line that is not indented or until the
/// description passes 640 bytes.
pub open spec fn block_from(lines: Seq<Seq<char>>, j: int, acc: Seq<char>) -> Seq<char>
    decreases lines.len() - j,
{
    if j < 0 || j >= lines.len() || !is_indented(lines[j]) {
        acc
    } else {
        let next = acc + trim_spec(lines[j]) + seq![' '];
        if utf8_len(next) > MAX_DESCRIPTION_BYTES {
            next
        } else {
            block_from(lines, j + 1, next)
        }
    }
}

/// The value of the first `description:` field at or after line `i`,
/// trimmed of white space and quotes, or the block that a marker announces.
pub open spec fn description_at(lines: Seq<Seq<char>>, i: int) -> Seq<char>
    decreases lines.len() - i,
{
    if i < 0 || i >= lines.len() {
        Seq::empty()
    } else if lines[i].len() >= 12 && lines[i].take(12) == description_key() {
        let value = trim_quotes(trim_spec(lines[i].skip(12)));
        if is_block_marker(value) {
            block_from(lines, i + 1, Seq::empty())
        } else {
            value
        }
    } else {
        description_at(lines, i + 1)
    }
}

/// The description of a skill: its `description:` value, trimmed, at most
/// 160 characters.
pub open spec fn skill_description_spec(text: Seq<char>) -> Seq<char> {
    let d = trim_spec(description_at(lines_spec(text), 0));
    if d.len() > DESCRIPTION_CHARS {
        d.take(DESCRIPTION_CHARS as int)
    } else {
        d
    }
}

/// `chars[from..]` without leading and trailing white space.
fn trim_chars_from(chars: &Vec<char>, from: usize) -> (r: Vec<char>)
    requires
        from <= chars@.len(),
    ensures
        r@ == trim_spec(chars@.skip(from as int)),
{
    let ghost s = chars@.skip(from as int);
    let n = chars.len();
    let mut a: usize = from;
    while a < n && is_whitespace_char(chars[a])
        invariant
            s == chars@.skip(from as int),
            n == chars@.len(),
            from <= a <= n,
            skip_white_space(s, 0) == skip_white_space(s, a - from),
        decreases n - a,
    {
        a = a + 1;
    }
    let mut b: usize = n;
    while b > a && is_whitespace_char(chars[b - 1])
        invariant
            s == chars@.skip(from as int),
            n == chars@.len(),
            from <= a <= b <= n,
            trim_end_at(s, s.len() as int) == trim_end_at(s, b - from),
        decreases b,
    {
        b = b - 1;
    }
    proof {
        assert(skip_white_space(s, a - from) == a - from);
        lemma_trim_end_stops(s, a - from, b - from);
    }
    let mut out: Vec<char> = Vec::new();
    let mut k: usize = a;
    while k < b
        invariant
            from <= a <= k <= b <= n,
            n == chars@.len(),
            out@ == chars@.subrange(a as int, k as int),
        decreases b - k,
    {
        out.push(chars[k]);
        proof {
            assert(chars@.subrange(a as int, k as int).push(chars@[k as int]) =~= chars@.subrange(a as int, k + 1));
        }
        k = k + 1;
    }
    proof {
        if a < b {
            assert(out@ =~= s.subrange(a - from, b - from));
        } else {
            assert(out@ =~= Seq::<char>::empty());
        }
    }
    out
}

/// Where the backward scan for trailing white space stops, given that it
/// does not pass `a`, the first position that is not white space.
proof fn lemma_trim_end_stops(s: Seq<char>, a: int, b: int)
    requires
        0 <= a <= b <= s.len(),
        a == skip_white_space(s, 0),
        b == a || !is_white_space(s[b - 1]),
        trim_end_at(s, s.len() as int) == trim_end_at(s, b),
    ensures
        trim_spec(s) == if a >= b {
            Seq::<char>::empty()
        } else {
            s.subrange(a, b)
        },
{
    lemma_trim_end_le(s, b);
}

/// The backward scan from `j` ends at or below `j`.
proof fn lemma_trim_end_le(s: Seq<char>, j: int)
    ensures
        trim_end_at(s, j) <= j,
    decreases j,
{
    if 0 < j <= s.len() && is_white_space(s[j - 1]) {
        lemma_trim_end_le(s, j - 1);
    }
}

/// `v` without the quotes at its ends.
fn trim_quote_chars(v: &Vec<char>) -> (r: Vec<char>)
    ensures
        r@ == trim_quotes(v@),
{
    let n = v.len();
    let mut a: usize = 0;
    while a < n && (v[a] == '\'' || v[a] == '"')
        invariant
            n == v@.len(),
            0 <= a <= n,
            skip_quotes(v@, 0) == skip_quotes(v@, a as int),
        decreases n - a,
    {
        a = a + 1;
    }
    let mut b: usize = n;
    while b > a && (v[b - 1] == '\'' || v[b - 1] == '"')
        invariant
            n == v@.len(),
            0 <= a <= b <= n,
            trim_quotes_end(v@, n as int) == trim_quotes_end(v@, b as int),
        decreases b,
    {
        b = b - 1;
    }
    proof {
        assert(skip_quotes(v@, a as int) == a);
        lemma_trim_quotes_end_le(v@, b as int);
        if b > a {
            assert(trim_quotes_end(v@, b as int) == b);
        }
    }
    let mut out: Vec<char> = Vec::new();
    let mut k: usize = a;
    while k < b
        invariant
            0 <= a <= k <= b <= n,
            n == v@.len(),
            out@ == v@.subrange(a as int, k as int),
        decreases b - k,
    {
        out.push(v[k]);
        proof {
            assert(v@.subrange(a as int, k as int).push(v@[k as int]) =~= v@.subrange(a as int, k + 1));
        }
        k = k + 1;
    }
    proof {
        if a >= b {
            assert(out@ =~= Seq::<char>::empty());
        }
    }
    out
}

/// The backward scan for quotes from `j` ends at or below `j`.
proof fn lemma_trim_quotes_end_le(s: Seq<char>, j: int)
    ensures
        trim_quotes_end(s, j) <= j,
    decreases j,
{
    if 0 < j <= s.len() && is_quote(s[j - 1]) {
        lemma_trim_quotes_end_le(s, j - 1);
    }
}

/// Whether `v` is a block marker.
fn block_marker(v: &Vec<char>) -> (r: bool)
    ensures
        r == is_block_marker(v@),
{
    let r = (v.len() == 1 && (v[0] == '>' || v[0] == '|')) || (v.len() == 2 && (v[0] == '>' || v[0]
        == '|') && v[1] == '-');
    proof {
        if v@.len() == 1 {
            if v@[0] == '>' {
                assert(v@ =~= seq!['>']);
            }
            if v@[0] == '|' {
                assert(v@ =~= seq!['|']);
            }
        }
        if v@.len() == 2 && v@[1] == '-' {
            if v@[0] == '>' {
                assert(v@ =~= seq!['>', '-']);
            }
            if v@[0] == '|' {
                assert(v@ =~= seq!['|', '-']);
            }
        }
        if is_block_marker(v@) {
            if v@ == seq!['>'] {
                assert(seq!['>'][0] == '>');
            }
            if v@ == seq!['|'] {
                assert(seq!['|'][0] == '|');
            }
            if v@ == seq!['>', '-'] {
                assert(seq!['>', '-'][0] == '>' && seq!['>', '-'][1] == '-');
            }
            if v@ == seq!['|', '-'] {
                assert(seq!['|', '-'][0] == '|' && seq!['|', '-'][1] == '-');
            }
        }
    }
    r
}

/// The block description from line `j` on.
fn block_description(lines: &Vec<Vec<char>>, j: usize) -> (r: Vec<char>)
    requires
        j <= lines@.len(),
    ensures
        r@ == block_from(lines@.map_values(|l: Vec<char>| l@), j as int, Seq::empty()),
{
    let ghost lv = lines@.map_values(|l: Vec<char>| l@);
    let mut acc: Vec<char> = Vec::new();
    let mut bytes: u128 = 0;
    let mut k: usize = j;
    proof {
        assert(acc@ =~= Seq::<char>::empty());
    }
    while k < lines.len()
        invariant
            lv == lines@.map_values(|l: Vec<char>| l@),
            j <= k <= lines@.len(),
            block_from(lv, j as int, Seq::empty()) == block_from(lv, k as int, acc@),
            bytes == utf8_len(acc@),
            bytes <= MAX_DESCRIPTION_BYTES,
        decreases lines@.len() - k,
    {
        let line = &lines[k];
        proof {
            assert(lv[k as int] == line@);
        }
        if !(line.len() > 0 && (line[0] == ' ' || line[0] == '\t')) {
            return acc;
        }
        let trimmed = trim_chars_from(line, 0);
        proof {
            assert(line@.skip(0) =~= line@);
        }
        let ghost start = acc@;
        let mut m: usize = 0;
        while m < trimmed.len()
            invariant
                0 <= m <= trimmed@.len(),
                acc@ == start + trimmed@.take(m as int),
                bytes == utf8_len(acc@),
                bytes <= MAX_DESCRIPTION_BYTES + 4 * m,
            decreases trimmed@.len() - m,
        {
            let ghost before = acc@;
            bytes = bytes + char_utf8_len(trimmed[m]) as u128;
            acc.push(trimmed[m]);
            proof {
                assert(acc@.drop_last() =~= before);
                assert(start + trimmed@.take(m as int) + seq![trimmed@[m as int]] =~= start + trimmed@.take(m + 1));
            }
            m = m + 1;
        }
        proof {
            assert(trimmed@.take(trimmed@.len() as int) =~= trimmed@);
        }
        let ghost before = acc@;
        acc.push(' ');
        bytes = bytes + 1;
        proof {
            assert(acc@.drop_last() =~= before);
            assert(acc@ =~= start + trim_spec(lv[k as int]) + seq![' ']);
        }
        if bytes > MAX_DESCRIPTION_BYTES {
            return acc;
        }
        k = k + 1;
    }
    acc
}

/// The value of the first `description:` field.
fn find_description(lines: &Vec<Vec<char>>) -> (r: Vec<char>)
    ensures
        r@ == description_at(lines@.map_values(|l: Vec<char>| l@), 0),
{
    let ghost lv = lines@.map_values(|l: Vec<char>| l@);
    let key = ['d', 'e', 's', 'c', 'r', 'i', 'p', 't', 'i', 'o', 'n', ':'];
    let mut i: usize = 0;
    while i < lines.len()
        invariant
            lv == lines@.map_values(|l: Vec<char>| l@),
            0 <= i <= lines@.len(),
            key@ == description_key(),
            description_at(lv, 0) == description_at(lv, i as int),
        decreases lines@.len() - i,
    {
        let line = &lines[i];
        proof {
            assert(lv[i as int] == line@);
        }
        if has_prefix_at(line, 0, &key) {
            proof {
                assert(line@.subrange(0, 12) =~= line@.take(12));
            }
            let value = trim_quote_chars(&trim_chars_from(line, 12));
            if block_marker(&value) {
                return block_description(lines, i + 1);
            }
            return value;
        }
        proof {
            if line@.len() >= 12 {
                assert(line@.subrange(0, 12) =~= line@.take(12));
            }
        }
        i = i + 1;
    }
    Vec::new()
}

/// The description that a `SKILL.md` declares: the value of its first
/// `description:` line, trimmed of white space and quotes, or, after a block
/// marker (`>`, `|`, `>-`, `|-`), its indented lines joined by spaces;
/// at most 160 characters.
pub fn skill_description(text: &str) -> (r: String)
    ensures
        r@ == skill_description_spec(text@),
{
    let chars = str_chars(text);
    let lines = text_lines(&chars);
    let found = find_description(&lines);
    let trimmed = trim_chars_from(&found, 0);
    proof {
        assert(found@.skip(0) =~= found@);
    }
    let mut out: Vec<char> = Vec::new();
    let mut k: usize = 0;
    while k < trimmed.len() && k < DESCRIPTION_CHARS
        invariant
            0 <= k <= trimmed@.len(),
            k <= DESCRIPTION_CHARS,
            out@ == trimmed@.take(k as int),
        decreases trimmed@.len() - k,
    {
        out.push(trimmed[k]);
        proof {
            assert(trimmed@.take(k as int).push(trimmed@[k as int]) =~= trimmed@.take(k + 1));
        }
        k = k + 1;
    }
    proof {
        if trimmed@.len() <= DESCRIPTION_CHARS {
            assert(trimmed@.take(k as int) =~= trimmed@);
        }
    }
    string_from_chars(out.as_slice())
}

/// The most entries of a skills directory that the catalog looks at.
pub const MAX_SKILL_ENTRIES: usize = 64;

/// The longest skill name, in bytes.
pub const MAX_SKILL_NAME_BYTES: usize = 64;

/// An entry of a skills directory: its file name as bytes, whether it is a
/// directory, and whether its name is UTF-8.
pub struct SkillEntry {
    pub name: Vec<u8>,
    pub is_dir: bool,
    pub utf8: bool,
}

/// Whether byte string `a` comes before `b`.
pub open spec fn bytes_before(a: Seq<u8>, b: Seq<u8>) -> bool
    decreases a.len(),
{
    if a.len() == 0 {
        b.len() > 0
    } else if b.len() == 0 {
        false
    } else if a[0] != b[0] {
        a[0] < b[0]
    } else {
        bytes_before(a.skip(1), b.skip(1))
    }
}

/// Whether entry `i` sorts before entry `j`: by name, and by position among
/// equal names.
pub open spec fn entry_before(es: Seq<SkillEntry>, i: int, j: int) -> bool {
    bytes_before(es[i].name@, es[j].name@) || (es[i].name@ == es[j].name@ && i < j)
}

/// How many of the first `n` entries sort before entry `i`.
pub open spec fn rank_within(es: Seq<SkillEntry>, i: int, n: int) -> int
    decreases n,
{
    if n <= 0 {
        0
    } else {
        rank_within(es, i, n - 1) + if entry_before(es, n - 1, i) {
            1int
        } else {
            0int
        }
    }
}

/// The position of entry `i` once the entries are sorted by name.
pub open spec fn rank(es: Seq<SkillEntry>, i: int) -> int {
    rank_within(es, i, es.len() as int)
}

/// Whether entry `i` makes it into the catalog: among the first 64 once
/// sorted, a directory, and named in UTF-8 with at most 64 bytes.
pub open spec fn entry_listed(es: Seq<SkillEntry>, i: int) -> bool {
    rank(es, i) < MAX_SKILL_ENTRIES && es[i].is_dir && es[i].utf8 && es[i].name@.len() <= MAX_SKILL_NAME_BYTES
}

fn bytes_before_exec(a: &Vec<u8>, b: &Vec<u8>) -> (r: bool)
    ensures
        r == bytes_before(a@, b@),
{
    let mut k: usize = 0;
    proof {
        assert(a@.skip(0) =~= a@);
        assert(b@.skip(0) =~= b@);
    }
    while k < a.len() && k < b.len() && a[k] == b[k]
        invariant
            k <= a@.len(),
            k <= b@.len(),
            bytes_before(a@.skip(k as int), b@.skip(k as int)) == bytes_before(a@, b@),
        decreases a@.len() - k,
    {
        proof {
            assert(a@.skip(k as int).skip(1) =~= a@.skip(k + 1));
            assert(b@.skip(k as int).skip(1) =~= b@.skip(k + 1));
        }
        k = k + 1;
    }
    if k == a.len() {
        k < b.len()
    } else if k == b.len() {
        false
    } else {
        a[k] < b[k]
    }
}

fn same_bytes(a: &Vec<u8>, b: &Vec<u8>) -> (r: bool)
    ensures
        r == (a@ == b@),
{
    if a.len() != b.len() {
        return false;
    }
    let mut k: usize = 0;
    while k < a.len()
        invariant
            a@.len() == b@.len(),
            k <= a@.len(),
            forall|t: int| 0 <= t < k ==> a@[t] == b@[t],
        decreases a@.len() - k,
    {
        if a[k] != b[k] {
            return false;
        }
        k = k + 1;
    }
    proof {
        assert(a@ =~= b@);
    }
    true
}

fn rank_exec(es: &[SkillEntry], i: usize) -> (r: usize)
    requires
        i < es@.len(),
    ensures
        r == rank(es@, i as int),
{
    let mut count: usize = 0;
    let mut j: usize = 0;
    while j < es.len()
        invariant
            i < es@.len(),
            j <= es@.len(),
            count == rank_within(es@, i as int, j as int),
            count <= j,
        decreases es@.len() - j,
    {
        let before = bytes_before_exec(&es[j].name, &es[i].name) || (same_bytes(&es[j].name, &es[i].name) && j < i);
        if before {
            count = count + 1;
        }
        j = j + 1;
    }
    count
}

/// The entries of a skills directory that the catalog lists, in name
/// order, and whether entries were left out for passing the limit of 64:
/// exactly the entries that `entry_listed` admits, by rising rank.
pub fn listed_skill_entries(es: &[SkillEntry]) -> (r: (Vec<usize>, bool))
    ensures
        r.1 == (es@.len() > MAX_SKILL_ENTRIES),
        forall|k: int| 0 <= k < r.0@.len() ==> r.0@[k] < es@.len() && entry_listed(es@, #[trigger] r.0@[k] as int),
        forall|i: int| 0 <= i < es@.len() && entry_listed(es@, i) ==> #[trigger] r.0@.contains(i as usize),
        forall|k: int, l: int|
            0 <= k < l < r.0@.len() ==> rank(es@, #[trigger] r.0@[k] as int) < rank(es@, #[trigger] r.0@[l] as int)
                || (rank(es@, r.0@[k] as int) == rank(es@, r.0@[l] as int) && r.0@[k] < r.0@[l]),
{
    let n = es.len();
    let mut ranks: Vec<usize> = Vec::new();
    let mut i: usize = 0;
    while i < n
        invariant
            n == es@.len(),
            i <= n,
            ranks@.len() == i,
            forall|t: int| 0 <= t < i ==> ranks@[t] == rank(es@, t),
        decreases n - i,
    {
        ranks.push(rank_exec(es, i));
        i = i + 1;
    }
    let mut out: Vec<usize> = Vec::new();
    let mut p: usize = 0;
    while p < MAX_SKILL_ENTRIES
        invariant
            n == es@.len(),
            ranks@.len() == n,
            forall|t: int| 0 <= t < n ==> ranks@[t] == rank(es@, t),
            p <= MAX_SKILL_ENTRIES,
            forall|k: int| 0 <= k < out@.len() ==> out@[k] < n && entry_listed(es@, #[trigger] out@[k] as int) && rank(
                es@,
                out@[k] as int,
            ) < p,
            forall|t: int| 0 <= t < n && entry_listed(es@, t) && rank(es@, t) < p ==> #[trigger] out@.contains(t as usize),
            forall|k: int, l: int|
                0 <= k < l < out@.len() ==> rank(es@, #[trigger] out@[k] as int) < rank(es@, #[trigger] out@[l] as int)
                    || (rank(es@, out@[k] as int) == rank(es@, out@[l] as int) && out@[k] < out@[l]),
        decreases MAX_SKILL_ENTRIES - p,
    {
        let ghost start = out@;
        let mut i: usize = 0;
        while i < n
            invariant
                n == es@.len(),
                ranks@.len() == n,
                forall|t: int| 0 <= t < n ==> ranks@[t] == rank(es@, t),
                p < MAX_SKILL_ENTRIES,
                i <= n,
                start.is_prefix_of(out@),
                forall|k: int| 0 <= k < start.len() ==> rank(es@, #[trigger] start[k] as int) < p,
                forall|k: int| 0 <= k < out@.len() ==> out@[k] < n && entry_listed(es@, #[trigger] out@[k] as int)
                    && rank(es@, out@[k] as int) <= p,
                forall|k: int| start.len() <= k < out@.len() ==> rank(es@, #[trigger] out@[k] as int) == p && out@[k] < i,
                forall|t: int| 0 <= t < n && entry_listed(es@, t) && rank(es@, t) < p ==> #[trigger] out@.contains(t as usize),
                forall|t: int| 0 <= t < i && entry_listed(es@, t) && rank(es@, t) == p ==> #[trigger] out@.contains(t as usize),
                forall|k: int, l: int|
                    0 <= k < l < out@.len() ==> rank(es@, #[trigger] out@[k] as int) < rank(es@, #[trigger] out@[l] as int)
                        || (rank(es@, out@[k] as int) == rank(es@, out@[l] as int) && out@[k] < out@[l]),
            decreases n - i,
        {
            if ranks[i] == p && es[i].is_dir && es[i].utf8 && es[i].name.len() <= MAX_SKILL_NAME_BYTES {
                let ghost before = out@;
                out.push(i);
                proof {
                    assert forall|t: int| 0 <= t < n && entry_listed(es@, t) && rank(es@, t) < p implies #[trigger] out@.contains(t as usize) by {
                        assert(before.contains(t as usize));
                        let k = choose|k: int| 0 <= k < before.len() && before[k] == t as usize;
                        assert(out@[k] == t as usize);
                    }
                    assert forall|t: int| 0 <= t < i + 1 && entry_listed(es@, t) && rank(es@, t) == p implies #[trigger] out@.contains(t as usize) by {
                        if t == i {
                            assert(out@[before.len() as int] == i);
                        } else {
                            assert(before.contains(t as usize));
                            let k = choose|k: int| 0 <= k < before.len() && before[k] == t as usize;
                            assert(out@[k] == t as usize);
                        }
                    }
                    assert(start.is_prefix_of(out@)) by {
                        assert(out@.take(start.len() as int) =~= before.take(start.len() as int));
                    }
                    assert forall|k: int, l: int| 0 <= k < l < out@.len() implies rank(es@, #[trigger] out@[k] as int)
                        < rank(es@, #[trigger] out@[l] as int) || (rank(es@, out@[k] as int) == rank(
                        es@,
                        out@[l] as int,
                    ) && out@[k] < out@[l]) by {
                        if l == before.len() {
                            assert(out@[l] == i);
                            assert(out@[k] == before[k]);
                            if k < start.len() {
                                assert(start[k] == before[k]);
                            }
                        } else {
                            assert(out@[k] == before[k] && out@[l] == before[l]);
                        }
                    }
                }
            }
            i = i + 1;
        }
        p = p + 1;
    }
    proof {
        assert forall|t: int| 0 <= t < n && entry_listed(es@, t) implies #[trigger] out@.contains(t as usize) by {}
    }
    (out, n > MAX_SKILL_ENTRIES)
}

} // verus!

//! Small string helpers shared by the parsers.

use vstd::prelude::*;
use vstd::string::*;

verus! {

/// Appends a character to a string (`String::push`, which std documents as
/// appending the given char to the end of the string).
#[verifier::external_body]
pub(crate) fn push_char(s: &mut String, c: char)
    ensures
        final(s)@ == old(s)@.push(c),
{
    s.push(c);
}

/// The string made of the characters of `chars`, in order.
pub fn string_from_chars(chars: &[char]) -> (r: String)
    ensures
        r@ == chars@,
{
    let mut r = String::new();
    let mut i: usize = 0;
    while i < chars.len()
        invariant
            0 <= i <= chars@.len(),
            r@ == chars@.take(i as int),
        decreases chars@.len() - i,
    {
        push_char(&mut r, chars[i]);
        proof {
            assert(chars@.take(i as int).push(chars@[i as int]) =~= chars@.take(i + 1));
        }
        i = i + 1;
    }
    proof {
        assert(chars@.take(chars@.len() as int) =~= chars@);
    }
    r
}

/// The position of the first `c` in `s` at or after `i`.
pub open spec fn first_index_from(s: Seq<char>, c: char, i: int) -> Option<int>
    decreases s.len() - i,
{
    if i < 0 || i >= s.len() {
        None
    } else if s[i] == c {
        Some(i)
    } else {
        first_index_from(s, c, i + 1)
    }
}

/// The position of the first `c` in `s`.
pub open spec fn first_index(s: Seq<char>, c: char) -> Option<int> {
    first_index_from(s, c, 0)
}

/// The position of the first `c` in `s`.
pub fn find_char(s: &Vec<char>, c: char) -> (r: Option<usize>)
    ensures
        match r {
            Some(i) => first_index(s@, c) == Some(i as int) && i < s@.len() && s@[i as int] == c,
            None => first_index(s@, c) is None,
        },
{
    let mut i: usize = 0;
    while i < s.len()
        invariant
            0 <= i <= s@.len(),
            first_index(s@, c) == first_index_from(s@, c, i as int),
        decreases s@.len() - i,
    {
        if s[i] == c {
            return Some(i);
        }
        i = i + 1;
    }
    None
}

/// The characters of `s` from `from` up to `to`.
pub fn chars_between(s: &Vec<char>, from: usize, to: usize) -> (r: Vec<char>)
    requires
        from <= to <= s@.len(),
    ensures
        r@ == s@.subrange(from as int, to as int),
{
    let mut r: Vec<char> = Vec::new();
    let mut i: usize = from;
    while i < to
        invariant
            from <= i <= to <= s@.len(),
            r@ == s@.subrange(from as int, i as int),
        decreases to - i,
    {
        r.push(s[i]);
        proof {
            assert(s@.subrange(from as int, i as int).push(s@[i as int]) =~= s@.subrange(from as int, i + 1));
        }
        i = i + 1;
    }
    r
}

/// An owned copy of `s`.
pub fn owned(s: &str) -> (r: String)
    ensures
        r@ == s@,
{
    let mut r = String::new();
    r.append(s);
    proof {
        assert(r@ =~= s@);
    }
    r
}

/// The concatenation of three strings.
pub fn join3(a: &str, b: &str, c: &str) -> (r: String)
    ensures
        r@ == a@ + b@ + c@,
{
    let mut r = String::new();
    r.append(a);
    r.append(b);
    r.append(c);
    proof {
        assert(r@ =~= a@ + b@ + c@);
    }
    r
}

/// The characters of `s`, in order.
pub fn str_chars(s: &str) -> (v: Vec<char>)
    ensures
        v@ == s@,
{
    let n = s.unicode_len();
    let mut v: Vec<char> = Vec::new();
    let mut i: usize = 0;
    while i < n
        invariant
            n == s@.len(),
            0 <= i <= n,
            v@ == s@.take(i as int),
        decreases n - i,
    {
        let c = s.get_char(i);
        v.push(c);
        proof {
            assert(s@.take(i as int).push(c) =~= s@.take(i + 1));
        }
        i = i + 1;
    }
    proof {
        assert(s@.take(n as int) =~= s@);
    }
    v
}

/// Whether `chars[pos..]` starts with `lit`.
pub fn has_prefix_at(chars: &Vec<char>, pos: usize, lit: &[char]) -> (r: bool)
    requires
        pos <= chars@.len(),
    ensures
        r == (lit@.len() <= chars@.len() - pos && chars@.subrange(pos as int, pos + lit@.len())
            == lit@),
{
    if lit.len() > chars.len() - pos {
        return false;
    }
    let n = chars.len();
    let mut i: usize = 0;
    while i < lit.len()
        invariant
            n == chars@.len(),
            pos + lit@.len() <= n,
            0 <= i <= lit@.len(),
            forall|j: int| 0 <= j < i ==> chars@[pos + j] == lit@[j],
        decreases lit@.len() - i,
    {
        if chars[pos + i] != lit[i] {
            proof {
                assert(chars@.subrange(pos as int, pos + lit@.len())[i as int] != lit@[i as int]);
            }
            return false;
        }
        i = i + 1;
    }
    proof {
        assert(chars@.subrange(pos as int, pos + lit@.len()) =~= lit@);
    }
    true
}

/// Whether `chars[pos..]` equals `lit`.
pub fn rest_equals(chars: &Vec<char>, pos: usize, lit: &[char]) -> (r: bool)
    requires
        pos <= chars@.len(),
    ensures
        r == (chars@.skip(pos as int) == lit@),
{
    if chars.len() - pos != lit.len() {
        proof {
            assert(chars@.skip(pos as int).len() != lit@.len());
        }
        return false;
    }
    let b = has_prefix_at(chars, pos, lit);
    proof {
        if b {
            assert(chars@.skip(pos as int) =~= chars@.subrange(pos as int, pos + lit@.len()));
        } else {
            if chars@.skip(pos as int) == lit@ {
                assert(chars@.skip(pos as int) =~= chars@.subrange(pos as int, pos + lit@.len()));
            }
        }
    }
    b
}

/// Whether `c` occurs in `s`.
pub fn str_contains_char(s: &str, c: char) -> (r: bool)
    ensures
        r == s@.contains(c),
{
    let chars = str_chars(s);
    let mut i: usize = 0;
    while i < chars.len()
        invariant
            chars@ == s@,
            0 <= i <= chars@.len(),
            forall|j: int| 0 <= j < i ==> chars@[j] != c,
        decreases chars@.len() - i,
    {
        if chars[i] == c {
            proof {
                assert(s@[i as int] == c);
            }
            return true;
        }
        i = i + 1;
    }
    false
}

/// The number of bytes of `c` in UTF-8.
pub open spec fn char_bytes(c: char) -> int {
    if (c as u32) < 0x80 {
        1
    } else if (c as u32) < 0x800 {
        2
    } else if (c as u32) < 0x10000 {
        3
    } else {
        4
    }
}

/// The number of bytes of `s` in UTF-8.
pub open spec fn utf8_len(s: Seq<char>) -> int
    decreases s.len(),
{
    if s.len() == 0 {
        0
    } else {
        utf8_len(s.drop_last()) + char_bytes(s.last())
    }
}

/// The number of bytes of `c` in UTF-8.
pub fn char_utf8_len(c: char) -> (r: usize)
    ensures
        r == char_bytes(c),
        1 <= r <= 4,
{
    let v = c as u32;
    if v < 0x80 {
        1
    } else if v < 0x800 {
        2
    } else if v < 0x10000 {
        3
    } else {
        4
    }
}

pub proof fn lemma_utf8_len_take(s: Seq<char>, i: int)
    requires
        0 <= i < s.len(),
    ensures
        utf8_len(s.take(i + 1)) == utf8_len(s.take(i)) + char_bytes(s[i]),
{
    assert(s.take(i + 1).drop_last() =~= s.take(i));
}

/// The bytes of a concatenation are those of its parts.
pub proof fn lemma_utf8_len_concat(a: Seq<char>, b: Seq<char>)
    ensures
        utf8_len(a + b) == utf8_len(a) + utf8_len(b),
    decreases b.len(),
{
    if b.len() > 0 {
        assert((a + b).drop_last() =~= a + b.drop_last());
        lemma_utf8_len_concat(a, b.drop_last());
    } else {
        assert(a + b =~= a);
    }
}

/// The number of bytes of `s` in UTF-8.
pub fn utf8_count(s: &str) -> (r: u128)
    ensures
        r == utf8_len(s@),
        r <= 0x40000000000000000u128,
{
    let chars = str_chars(s);
    let n = chars.len();
    let mut acc: u128 = 0;
    let mut i: usize = 0;
    proof {
        assert(chars@.take(0) =~= Seq::<char>::empty());
    }
    while i < n
        invariant
            n == chars@.len(),
            0 <= i <= n,
            acc == utf8_len(chars@.take(i as int)),
            acc <= 4 * i,
        decreases n - i,
    {
        proof {
            lemma_utf8_len_take(chars@, i as int);
        }
        acc = acc + char_utf8_len(chars[i]) as u128;
        i = i + 1;
    }
    proof {
        assert(chars@.take(n as int) =~= chars@);
    }
    acc
}

/// Whether `c` has the Unicode White_Space property, which `char::is_whitespace` tests.
pub open spec fn is_white_space(c: char) -> bool {
    let v = c as u32;
    (0x9 <= v && v <= 0xD) || v == 0x20 || v == 0x85 || v == 0xA0 || v == 0x1680 || (0x2000 <= v
        && v <= 0x200A) || v == 0x2028 || v == 0x2029 || v == 0x202F || v == 0x205F || v == 0x3000
}

/// Whether `c` is white space (`char::is_whitespace`).
pub fn is_whitespace_char(c: char) -> (r: bool)
    ensures
        r == is_white_space(c),
{
    let v = c as u32;
    (0x9 <= v && v <= 0xD) || v == 0x20 || v == 0x85 || v == 0xA0 || v == 0x1680 || (0x2000 <= v
        && v <= 0x200A) || v == 0x2028 || v == 0x2029 || v == 0x202F || v == 0x205F || v == 0x3000
}

/// The first position at or after `i` that is not white space (or the end).
pub open spec fn skip_white_space(s: Seq<char>, i: int) -> int
    decreases s.len() - i,
{
    if i < 0 || i >= s.len() || !is_white_space(s[i]) {
        i
    } else {
        skip_white_space(s, i + 1)
    }
}

/// The end of `s[..j]` without its trailing white space.
pub open spec fn trim_end_at(s: Seq<char>, j: int) -> int
    decreases j,
{
    if j <= 0 || j > s.len() || !is_white_space(s[j - 1]) {
        j
    } else {
        trim_end_at(s, j - 1)
    }
}

/// `s` without leading and trailing white space (`str::trim`).
pub open spec fn trim_spec(s: Seq<char>) -> Seq<char> {
    let a = skip_white_space(s, 0);
    let b = trim_end_at(s, s.len() as int);
    if a >= b {
        Seq::empty()
    } else {
        s.subrange(a, b)
    }
}

/// `s` without leading and trailing white space.
pub fn trim_str(s: &str) -> (r: &str)
    ensures
        r@ == trim_spec(s@),
{
    let chars = str_chars(s);
    let n = chars.len();
    let mut a: usize = 0;
    while a < n && is_whitespace_char(chars[a])
        invariant
            n == s@.len(),
            chars@ == s@,
            0 <= a <= n,
            skip_white_space(s@, 0) == skip_white_space(s@, a as int),
        decreases n - a,
    {
        a = a + 1;
    }
    let mut b: usize = n;
    while b > 0 && is_whitespace_char(chars[b - 1])
        invariant
            n == s@.len(),
            chars@ == s@,
            0 <= b <= n,
            trim_end_at(s@, n as int) == trim_end_at(s@, b as int),
        decreases b,
    {
        b = b - 1;
    }
    if a >= b {
        proof {
            assert(s@.subrange(0, 0) =~= Seq::<char>::empty());
        }
        s.substring_char(0, 0)
    } else {
        s.substring_char(a, b)
    }
}

/// The words of `s` from `i` on: maximal runs of characters that are not
/// white space, `cur` being the word in progress and `acc` the words so far.
pub open spec fn words_from(s: Seq<char>, i: int, cur: Seq<char>, acc: Seq<Seq<char>>) -> Seq<Seq<char>>
    decreases s.len() - i,
{
    if i < 0 || i >= s.len() {
        if cur.len() > 0 {
            acc.push(cur)
        } else {
            acc
        }
    } else if is_white_space(s[i]) {
        words_from(
            s,
            i + 1,
            Seq::empty(),
            if cur.len() > 0 {
                acc.push(cur)
            } else {
                acc
            },
        )
    } else {
        words_from(s, i + 1, cur.push(s[i]), acc)
    }
}

/// The words of `s` (`str::split_whitespace`).
pub open spec fn words(s: Seq<char>) -> Seq<Seq<char>> {
    words_from(s, 0, Seq::empty(), Seq::empty())
}

/// The words of `chars`.
pub fn split_words(chars: &Vec<char>) -> (r: Vec<Vec<char>>)
    ensures
        r@.map_values(|w: Vec<char>| w@) == words(chars@),
{
    let n = chars.len();
    let mut acc: Vec<Vec<char>> = Vec::new();
    let mut cur: Vec<char> = Vec::new();
    let mut i: usize = 0;
    proof {
        assert(acc@.map_values(|w: Vec<char>| w@) =~= Seq::<Seq<char>>::empty());
        assert(cur@ =~= Seq::<char>::empty());
    }
    while i < n
        invariant
            n == chars@.len(),
            0 <= i <= n,
            words(chars@) == words_from(chars@, i as int, cur@, acc@.map_values(|w: Vec<char>| w@)),
        decreases n - i,
    {
        let c = chars[i];
        if is_whitespace_char(c) {
            if cur.len() > 0 {
                let ghost before = acc@.map_values(|w: Vec<char>| w@);
                let word = cur;
                acc.push(word);
                cur = Vec::new();
                proof {
                    assert(acc@.map_values(|w: Vec<char>| w@) =~= before.push(word@));
                    assert(cur@ =~= Seq::<char>::empty());
                }
            } else {
                proof {
                    assert(cur@ =~= Seq::<char>::empty());
                }
            }
        } else {
            cur.push(c);
        }
        i = i + 1;
    }
    if cur.len() > 0 {
        let ghost before = acc@.map_values(|w: Vec<char>| w@);
        let word = cur;
        acc.push(word);
        proof {
            assert(acc@.map_values(|w: Vec<char>| w@) =~= before.push(word@));
        }
    }
    acc
}

/// `line` without the carriage return that ends it, if any.
pub open spec fn strip_cr(line: Seq<char>) -> Seq<char> {
    if line.len() > 0 && line.last() == '\r' {
        line.drop_last()
    } else {
        line
    }
}

/// The lines of `text` from position `i` on, `cur` being the line in
/// progress and `acc` the lines so far: a newline ends a line (and a
/// carriage return before it is dropped); after a final newline no empty
/// line follows (`str::lines`).
pub open spec fn lines_scan(text: Seq<char>, i: int, cur: Seq<char>, acc: Seq<Seq<char>>) -> Seq<Seq<char>>
    decreases text.len() - i,
{
    if i < 0 || i >= text.len() {
        if cur.len() > 0 {
            acc.push(cur)
        } else {
            acc
        }
    } else if text[i] == '\n' {
        lines_scan(text, i + 1, Seq::empty(), acc.push(strip_cr(cur)))
    } else {
        lines_scan(text, i + 1, cur.push(text[i]), acc)
    }
}

/// The lines of `text`.
pub open spec fn lines_spec(text: Seq<char>) -> Seq<Seq<char>> {
    lines_scan(text, 0, Seq::empty(), Seq::empty())
}

/// The lines of `chars`.
pub fn text_lines(chars: &Vec<char>) -> (r: Vec<Vec<char>>)
    ensures
        r@.map_values(|l: Vec<char>| l@) == lines_spec(chars@),
{
    let n = chars.len();
    let mut acc: Vec<Vec<char>> = Vec::new();
    let mut cur: Vec<char> = Vec::new();
    let mut i: usize = 0;
    proof {
        assert(acc@.map_values(|l: Vec<char>| l@) =~= Seq::<Seq<char>>::empty());
        assert(cur@ =~= Seq::<char>::empty());
    }
    while i < n
        invariant
            n == chars@.len(),
            0 <= i <= n,
            lines_spec(chars@) == lines_scan(chars@, i as int, cur@, acc@.map_values(|l: Vec<char>| l@)),
        decreases n - i,
    {
        let c = chars[i];
        if c == '\n' {
            let ghost before = acc@.map_values(|l: Vec<char>| l@);
            let ghost line = cur@;
            let mut done = cur;
            if done.len() > 0 && done[done.len() - 1] == '\r' {
                done.pop();
                proof {
                    assert(done@ =~= line.drop_last());
                }
            }
            acc.push(done);
            cur = Vec::new();
            proof {
                assert(acc@.map_values(|l: Vec<char>| l@) =~= before.push(strip_cr(line)));
                assert(cur@ =~= Seq::<char>::empty());
            }
        } else {
            cur.push(c);
        }
        i = i + 1;
    }
    if cur.len() > 0 {
        let ghost before = acc@.map_values(|l: Vec<char>| l@);
        let line = cur;
        acc.push(line);
        proof {
            assert(acc@.map_values(|l: Vec<char>| l@) =~= before.push(line@));
        }
    }
    acc
}

} // verus!

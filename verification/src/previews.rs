//! The short preview shown for a stored session: read from the first lines
//! of its log, up to its first user message.

use vstd::prelude::*;
use crate::text::{owned, push_char, split_words, str_chars, words};

verus! {

/// The most characters of the first message that a preview reads.
pub const PREVIEW_CHARS: usize = 120;

/// The texts concatenated.
pub open spec fn concat_texts(texts: Seq<Seq<char>>) -> Seq<char>
    decreases texts.len(),
{
    if texts.len() == 0 {
        Seq::empty()
    } else {
        concat_texts(texts.drop_last()) + texts.last()
    }
}

/// The words joined by single spaces.
pub open spec fn join_words(ws: Seq<Seq<char>>) -> Seq<char>
    decreases ws.len(),
{
    if ws.len() == 0 {
        Seq::empty()
    } else if ws.len() == 1 {
        ws[0]
    } else {
        join_words(ws.drop_last()) + seq![' '] + ws.last()
    }
}

/// The preview of a session: the first 120 characters of the text of its
/// first user message, with white space runs collapsed to single spaces; a
/// fixed note when there is no such message or it has no text.
pub open spec fn preview_spec(texts: Option<Seq<Seq<char>>>) -> Seq<char> {
    match texts {
        None => "No short preview available"@,
        Some(ts) => {
            let all = concat_texts(ts);
            let head = if all.len() > PREVIEW_CHARS {
                all.take(PREVIEW_CHARS as int)
            } else {
                all
            };
            if head.len() == 0 {
                "No short preview available"@
            } else {
                join_words(words(head))
            }
        },
    }
}

/// The preview of a session from the text contents of its first user
/// message, if it has one.
pub fn preview_text(texts: Option<&[String]>) -> (r: String)
    ensures
        r@ == preview_spec(
            match texts {
                Some(t) => Some(t@.map_values(|s: String| s@)),
                None => None,
            },
        ),
{
    let texts = match texts {
        Some(t) => t,
        None => return owned("No short preview available"),
    };
    let ghost tv = texts@.map_values(|s: String| s@);
    let mut head: Vec<char> = Vec::new();
    let mut i: usize = 0;
    proof {
        assert(tv.take(0) =~= Seq::<Seq<char>>::empty());
    }
    while i < texts.len() && head.len() < PREVIEW_CHARS
        invariant
            tv == texts@.map_values(|s: String| s@),
            0 <= i <= texts@.len(),
            head@.len() <= PREVIEW_CHARS,
            head@.len() < PREVIEW_CHARS ==> head@ == concat_texts(tv.take(i as int)),
            head@.len() == PREVIEW_CHARS ==> head@ == concat_texts(tv).take(PREVIEW_CHARS as int),
            head@.len() <= concat_texts(tv.take(i as int)).len(),
            head@ == concat_texts(tv.take(i as int)).take(head@.len() as int),
        decreases texts@.len() - i,
    {
        let chars = str_chars(texts[i].as_str());
        let ghost before = head@;
        let mut j: usize = 0;
        while j < chars.len() && head.len() < PREVIEW_CHARS
            invariant
                0 <= j <= chars@.len(),
                head@.len() <= PREVIEW_CHARS,
                head@ == before + chars@.take(j as int),
            decreases chars@.len() - j,
        {
            head.push(chars[j]);
            proof {
                assert(before + chars@.take(j as int) + seq![chars@[j as int]] =~= before + chars@.take(j + 1));
            }
            j = j + 1;
        }
        proof {
            assert(tv.take(i + 1).drop_last() =~= tv.take(i as int));
            assert(tv.take(i + 1).last() == chars@);
            lemma_concat_prefix(tv, i + 1);
            if j == chars@.len() {
                assert(chars@.take(j as int) =~= chars@);
            }
            assert(head@ =~= concat_texts(tv.take(i + 1)).take(head@.len() as int));
        }
        i = i + 1;
        proof {
            if head@.len() == PREVIEW_CHARS {
                lemma_concat_prefix_take(tv, i as int, PREVIEW_CHARS as int);
            }
        }
    }
    proof {
        let all = concat_texts(tv);
        if head@.len() < PREVIEW_CHARS {
            assert(tv.take(texts@.len() as int) =~= tv);
        } else {
            lemma_concat_prefix(tv, i as int);
            if all.len() <= PREVIEW_CHARS {
                assert(all.take(PREVIEW_CHARS as int) =~= all);
            }
        }
        let spec_head = if all.len() > PREVIEW_CHARS {
            all.take(PREVIEW_CHARS as int)
        } else {
            all
        };
        assert(head@ =~= spec_head);
    }
    if head.len() == 0 {
        return owned("No short preview available");
    }
    let ws = split_words(&head);
    let mut out = String::new();
    let mut k: usize = 0;
    let ghost wv = ws@.map_values(|w: Vec<char>| w@);
    proof {
        assert(wv.take(0) =~= Seq::<Seq<char>>::empty());
    }
    while k < ws.len()
        invariant
            wv == ws@.map_values(|w: Vec<char>| w@),
            0 <= k <= ws@.len(),
            out@ == join_words(wv.take(k as int)),
        decreases ws@.len() - k,
    {
        let ghost before = out@;
        if k > 0 {
            push_char(&mut out, ' ');
        }
        let word = &ws[k];
        let mut j: usize = 0;
        let ghost mid = out@;
        while j < word.len()
            invariant
                0 <= j <= word@.len(),
                out@ == mid + word@.take(j as int),
            decreases word@.len() - j,
        {
            push_char(&mut out, word[j]);
            proof {
                assert(mid + word@.take(j as int) + seq![word@[j as int]] =~= mid + word@.take(j + 1));
            }
            j = j + 1;
        }
        proof {
            assert(word@.take(word@.len() as int) =~= word@);
            assert(wv.take(k + 1).drop_last() =~= wv.take(k as int));
            assert(wv.take(k + 1).last() == word@);
            if k == 0 {
                assert(wv.take(1) =~= seq![word@]);
                assert(mid =~= Seq::<char>::empty());
                assert(out@ =~= word@);
            }
        }
        k = k + 1;
    }
    proof {
        assert(wv.take(ws@.len() as int) =~= wv);
    }
    out
}

/// The concatenation of a prefix of the texts is a prefix of the whole.
proof fn lemma_concat_prefix(ts: Seq<Seq<char>>, n: int)
    requires
        0 <= n <= ts.len(),
    ensures
        concat_texts(ts.take(n)).len() <= concat_texts(ts).len(),
        concat_texts(ts.take(n)) == concat_texts(ts).take(concat_texts(ts.take(n)).len() as int),
    decreases ts.len() - n,
{
    if n == ts.len() {
        assert(ts.take(n) =~= ts);
        assert(concat_texts(ts).take(concat_texts(ts).len() as int) =~= concat_texts(ts));
    } else {
        lemma_concat_prefix(ts, n + 1);
        assert(ts.take(n + 1).drop_last() =~= ts.take(n));
        let a = concat_texts(ts.take(n));
        let b = concat_texts(ts.take(n + 1));
        assert(b == a + ts[n]);
        assert(concat_texts(ts).take(a.len() as int) =~= b.take(a.len() as int));
        assert(b.take(a.len() as int) =~= a);
    }
}

proof fn lemma_concat_prefix_take(ts: Seq<Seq<char>>, n: int, k: int)
    requires
        0 <= n <= ts.len(),
        0 <= k <= concat_texts(ts.take(n)).len(),
    ensures
        concat_texts(ts.take(n)).take(k) == concat_texts(ts).take(k),
{
    lemma_concat_prefix(ts, n);
    assert(concat_texts(ts.take(n)).take(k) =~= concat_texts(ts).take(k));
}

/// The most lines of a session log that a preview reads.
pub const PREVIEW_LINES: usize = 64;

/// What a preview reads of one line of a session log.
#[derive(Clone, Debug)]
pub enum PreviewLine {
    /// The line is not a record.
    Unreadable,
    /// A record of the log.
    Record {
        schema_version: u64,
        session_id: u128,
        /// The record holds a user message.
        user: bool,
        /// The text contents of the user message, when its payload decodes
        /// to one.
        user_texts: Option<Vec<String>>,
    },
}

/// The pieces of `bytes` between newlines (`[u8]::split` on `\n`), the
/// first piece being the one that ends at `end`.
pub open spec fn pieces_upto(bytes: Seq<u8>, end: int) -> Seq<Seq<u8>>
    decreases end,
{
    if end <= 0 {
        seq![Seq::empty()]
    } else if bytes[end - 1] == 10 {
        pieces_upto(bytes, end - 1).push(Seq::empty())
    } else {
        let ps = pieces_upto(bytes, end - 1);
        ps.update(ps.len() - 1, ps.last().push(bytes[end - 1]))
    }
}

/// The lines of `bytes`: the pieces between newlines, an empty one after a
/// final newline included.
pub open spec fn split_lines_spec(bytes: Seq<u8>) -> Seq<Seq<u8>> {
    pieces_upto(bytes, bytes.len() as int)
}

proof fn lemma_pieces_nonempty(bytes: Seq<u8>, end: int)
    requires
        0 <= end <= bytes.len(),
    ensures
        pieces_upto(bytes, end).len() >= 1,
    decreases end,
{
    if end > 0 {
        lemma_pieces_nonempty(bytes, end - 1);
    }
}

/// The first 64 lines of a session log.
pub fn preview_lines(bytes: &[u8]) -> (r: Vec<Vec<u8>>)
    ensures
        r@.map_values(|l: Vec<u8>| l@) == split_lines_spec(bytes@).take(
            if split_lines_spec(bytes@).len() > PREVIEW_LINES {
                PREVIEW_LINES as int
            } else {
                split_lines_spec(bytes@).len() as int
            },
        ),
{
    let mut done: Vec<Vec<u8>> = Vec::new();
    let mut cur: Vec<u8> = Vec::new();
    let mut i: usize = 0;
    proof {
        assert(done@.map_values(|l: Vec<u8>| l@).push(cur@) =~= pieces_upto(bytes@, 0));
    }
    while i < bytes.len() && done.len() < PREVIEW_LINES
        invariant
            0 <= i <= bytes@.len(),
            done@.len() <= PREVIEW_LINES,
            done@.map_values(|l: Vec<u8>| l@).push(cur@) == pieces_upto(bytes@, i as int),
        decreases bytes@.len() - i,
    {
        let ghost before = done@.map_values(|l: Vec<u8>| l@);
        if bytes[i] == 10 {
            let line = cur;
            done.push(line);
            cur = Vec::new();
            proof {
                assert(done@.map_values(|l: Vec<u8>| l@) =~= before.push(line@));
                assert(done@.map_values(|l: Vec<u8>| l@).push(cur@) =~= before.push(line@).push(
                    Seq::empty(),
                ));
            }
        } else {
            cur.push(bytes[i]);
            proof {
                let ps = pieces_upto(bytes@, i as int);
                assert(before.push(cur@) =~= ps.update(ps.len() - 1, ps.last().push(bytes@[i as int])));
            }
        }
        i = i + 1;
    }
    let ghost all = split_lines_spec(bytes@);
    proof {
        lemma_pieces_prefix(bytes@, i as int, bytes@.len() as int);
        lemma_pieces_nonempty(bytes@, i as int);
    }
    if done.len() < PREVIEW_LINES {
        let ghost before = done@.map_values(|l: Vec<u8>| l@);
        done.push(cur);
        proof {
            assert(i == bytes@.len());
            assert(done@.map_values(|l: Vec<u8>| l@) =~= pieces_upto(bytes@, i as int));
            assert(all.take(all.len() as int) =~= all);
        }
    } else {
        proof {
            let ps = pieces_upto(bytes@, i as int);
            assert(ps.take(PREVIEW_LINES as int) =~= done@.map_values(|l: Vec<u8>| l@));
            assert(all.take(PREVIEW_LINES as int) =~= ps.take(PREVIEW_LINES as int));
        }
    }
    done
}

/// The pieces up to `a` are, but for the last, the first pieces up to `b`.
proof fn lemma_pieces_prefix(bytes: Seq<u8>, a: int, b: int)
    requires
        0 <= a <= b <= bytes.len(),
    ensures
        pieces_upto(bytes, a).len() <= pieces_upto(bytes, b).len(),
        forall|k: int|
            0 <= k < pieces_upto(bytes, a).len() - 1 ==> #[trigger] pieces_upto(bytes, a)[k]
                == pieces_upto(bytes, b)[k],
    decreases b - a,
{
    lemma_pieces_nonempty(bytes, a);
    if a < b {
        lemma_pieces_prefix(bytes, a, b - 1);
        lemma_pieces_nonempty(bytes, b - 1);
    }
}

/// The preview that the lines of a session log give, scanning from line `i`:
/// the scan stops at the first line that is not a record of this session
/// with schema version 1, and at its first user message.
pub open spec fn scan_preview(lines: Seq<PreviewLine>, id: u128, i: int) -> Seq<char>
    decreases lines.len() - i,
{
    if i < 0 || i >= lines.len() || i >= PREVIEW_LINES {
        "No short preview available"@
    } else {
        match lines[i] {
            PreviewLine::Unreadable => "No short preview available"@,
            PreviewLine::Record { schema_version, session_id, user, user_texts } => {
                if schema_version != 1 || session_id != id {
                    "No short preview available"@
                } else if user {
                    preview_spec(
                        match user_texts {
                            Some(t) => Some(t@.map_values(|s: String| s@)),
                            None => None,
                        },
                    )
                } else {
                    scan_preview(lines, id, i + 1)
                }
            },
        }
    }
}

/// The preview of session `id` from the first lines of its log.
pub fn preview_from_lines(lines: &[PreviewLine], id: u128) -> (r: String)
    ensures
        r@ == scan_preview(lines@, id, 0),
{
    let mut i: usize = 0;
    while i < lines.len() && i < PREVIEW_LINES
        invariant
            0 <= i <= lines@.len(),
            scan_preview(lines@, id, 0) == scan_preview(lines@, id, i as int),
        decreases lines@.len() - i,
    {
        match &lines[i] {
            PreviewLine::Unreadable => {
                return owned("No short preview available");
            },
            PreviewLine::Record { schema_version, session_id, user, user_texts } => {
                if *schema_version != 1 || *session_id != id {
                    return owned("No short preview available");
                }
                if *user {
                    return match user_texts {
                        Some(t) => preview_text(Some(t.as_slice())),
                        None => preview_text(None),
                    };
                }
            },
        }
        i = i + 1;
    }
    owned("No short preview available")
}

/// The most sessions previewed at once.
pub const MAX_PREVIEWS: usize = 256;

/// How many of the listed sessions, newest first, are previewed: at most
/// `limit`, and at most 256.
pub fn preview_count(sessions: usize, limit: usize) -> (r: usize)
    ensures
        r <= sessions,
        r <= limit,
        r <= MAX_PREVIEWS,
        r == sessions || r == limit || r == MAX_PREVIEWS,
{
    let cap = if limit < MAX_PREVIEWS {
        limit
    } else {
        MAX_PREVIEWS
    };
    if sessions < cap {
        sessions
    } else {
        cap
    }
}

/// Whether a session log may be previewed: a regular file that only its
/// owner may read or write (no group or other permission bits), owned by
/// the current user.
pub open spec fn preview_file_ok_spec(is_file: bool, mode: u32, uid: u32, euid: u32) -> bool {
    is_file && mode % 64 == 0 && uid == euid
}

/// Whether a session log may be previewed (see [`preview_file_ok_spec`]).
pub fn preview_file_ok(is_file: bool, mode: u32, uid: u32, euid: u32) -> (r: bool)
    ensures
        r == preview_file_ok_spec(is_file, mode, uid, euid),
{
    proof {
        assert(mode & 0o77u32 == mode % 64) by (bit_vector);
    }
    is_file && mode & 0o77u32 == 0 && uid == euid
}

} // verus!

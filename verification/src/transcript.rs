//! Paging back through the conversation of a session log.

use vstd::prelude::*;
use vstd::string::*;
use crate::items::TranscriptPage;
use crate::session::{ContentBlock, RecordKind, RecordPayload, Session, SessionRecord, log_wf};
use crate::text::{char_bytes, char_utf8_len, owned, push_char, str_chars, string_from_chars, utf8_count, utf8_len, lemma_utf8_len_concat};

verus! {

/// The most bytes of one message shown on a page.
pub const MESSAGE_VIEW_BYTES: usize = 49152;

/// The bytes a page aims to stay within.
pub const PAGE_BYTES: usize = 65536;

/// The most messages on one page.
pub const PAGE_MESSAGES: usize = 64;

/// The most log bytes read for one page.
pub const PAGE_READ_BYTES: usize = 8388608;

/// The most records visited for one page.
pub const PAGE_STEPS: usize = 4096;

/// The most content blocks shown for one message.
pub const MESSAGE_BLOCKS: usize = 64;

/// From `i` on, how many characters of `s` still fit within `limit` bytes
/// when `used` are taken: the end of the longest prefix within the limit.
pub open spec fn fit_end(s: Seq<char>, limit: int, i: int, used: int) -> int
    decreases s.len() - i,
{
    if i < 0 || i >= s.len() || used + char_bytes(s[i]) > limit {
        i
    } else {
        fit_end(s, limit, i + 1, used + char_bytes(s[i]))
    }
}

/// Whether a record is part of the conversation.
pub open spec fn is_message(kind: RecordKind) -> bool {
    kind == RecordKind::User || kind == RecordKind::Assistant || kind == RecordKind::ToolCall || kind
        == RecordKind::ToolResult
}

/// The heading name of a conversation record.
pub open spec fn role_name(kind: RecordKind) -> Seq<char> {
    match kind {
        RecordKind::User => "You"@,
        RecordKind::Assistant => "Antex"@,
        RecordKind::ToolCall => "Tool call"@,
        _ => "Tool result"@,
    }
}

/// The decimal digits of `n`.
pub open spec fn decimal(n: nat) -> Seq<char>
    decreases n,
{
    if n < 10 {
        seq![digit_char(n)]
    } else {
        decimal(n / 10) + seq![digit_char(n % 10)]
    }
}

pub open spec fn digit_char(d: nat) -> char {
    if d == 0 {
        '0'
    } else if d == 1 {
        '1'
    } else if d == 2 {
        '2'
    } else if d == 3 {
        '3'
    } else if d == 4 {
        '4'
    } else if d == 5 {
        '5'
    } else if d == 6 {
        '6'
    } else if d == 7 {
        '7'
    } else if d == 8 {
        '8'
    } else {
        '9'
    }
}

/// How one content block reads on a page.
pub open spec fn block_view(b: ContentBlock) -> Seq<char> {
    match b {
        ContentBlock::Text(t) => t@,
        ContentBlock::Reasoning(t) => "\n[Reasoning summary]\n"@ + t@,
        ContentBlock::Image => "\n[Image attachment]\n"@,
        ContentBlock::Other => Seq::empty(),
    }
}

/// How the content blocks read on a page, in order.
pub open spec fn blocks_view(bs: Seq<ContentBlock>) -> Seq<char>
    decreases bs.len(),
{
    if bs.len() == 0 {
        Seq::empty()
    } else {
        blocks_view(bs.drop_last()) + block_view(bs.last())
    }
}

/// The full text of a conversation record: a tool result's text or a tool
/// call's JSON, then its content blocks (at most 64).
pub open spec fn record_content(r: SessionRecord) -> Seq<char> {
    match r.payload {
        RecordPayload::Entry { text, pretty_json, content } => {
            let base = if r.kind == RecordKind::ToolResult {
                text@
            } else if r.kind == RecordKind::ToolCall {
                "```json\n"@ + pretty_json@ + "\n```"@
            } else {
                Seq::empty()
            };
            let shown = if content@.len() > MESSAGE_BLOCKS {
                content@.take(MESSAGE_BLOCKS as int)
            } else {
                content@
            };
            base + blocks_view(shown)
        },
        _ => Seq::empty(),
    }
}

/// A message as shown: cut to its longest prefix within 48 KiB, with a note,
/// when it is longer.
pub open spec fn message_view(c: Seq<char>) -> Seq<char> {
    let end = fit_end(c, MESSAGE_VIEW_BYTES as int, 0, 0);
    if end < c.len() {
        c.take(end) + "\n[Long message truncated in this view; original remains in the session]"@
    } else {
        c
    }
}

/// The page item of the record at `id`.
pub open spec fn item_view(id: nat, r: SessionRecord) -> Seq<char> {
    "## "@ + role_name(r.kind) + " · "@ + decimal(id) + "\n\n"@ + message_view(record_content(r))
        + "\n\n"@
}

/// Walking back from `next` for at most `steps` records: the items
/// collected (newest first) and where the next page starts.
pub open spec fn walk(
    records: Seq<SessionRecord>,
    next: Option<usize>,
    steps: nat,
    items: Seq<Seq<char>>,
    bytes: int,
    read: int,
) -> (Seq<Seq<char>>, Option<usize>)
    decreases steps,
{
    if steps == 0 {
        (items, next)
    } else {
        match next {
            None => (items, None),
            Some(id) => if id >= records.len() {
                (items, next)
            } else {
                let r = records[id as int];
                if !is_message(r.kind) {
                    walk(records, r.parent, (steps - 1) as nat, items, bytes, read)
                } else {
                    let item = item_view(id as nat, r);
                    if bytes + utf8_len(item) > PAGE_BYTES && items.len() > 0 {
                        (items, next)
                    } else {
                        let items2 = items.push(item);
                        let read2 = read + r.length;
                        if items2.len() >= PAGE_MESSAGES || read2 >= PAGE_READ_BYTES {
                            (items2, r.parent)
                        } else {
                            walk(records, r.parent, (steps - 1) as nat, items2, bytes + utf8_len(item), read2)
                        }
                    }
                }
            },
        }
    }
}

/// `items` joined in reverse order: oldest first.
pub open spec fn join_reversed(items: Seq<Seq<char>>) -> Seq<char>
    decreases items.len(),
{
    if items.len() == 0 {
        Seq::empty()
    } else {
        items.last() + join_reversed(items.drop_last())
    }
}

/// Whether the branch that ends at `from` passes through `target`.
pub open spec fn reaches(records: Seq<SessionRecord>, from: Option<usize>, target: usize) -> bool
    decreases
            match from {
                Some(i) => i + 1,
                None => 0,
            },
{
    match from {
        None => false,
        Some(i) => if i == target {
            true
        } else if i < records.len() {
            match records[i as int].parent {
                Some(p) => if p < i {
                    reaches(records, Some(p), target)
                } else {
                    false
                },
                None => false,
            }
        } else {
            false
        },
    }
}

/// The transcript page that starts at `cursor` (the head when there is
/// none), or the reason there is none.
pub open spec fn transcript_page_spec(
    records: Seq<SessionRecord>,
    head: Option<usize>,
    cursor: Option<usize>,
) -> Result<(Seq<char>, Option<usize>), Seq<char>> {
    let start = match cursor {
        Some(c) => Some(c),
        None => head,
    };
    match start {
        None => Ok((Seq::empty(), None)),
        Some(s) => if !reaches(records, head, s) {
            Err("transcript cursor is not on the active branch"@)
        } else {
            let (items, next) = walk(records, Some(s), PAGE_STEPS as nat, Seq::empty(), 0, 0);
            Ok((join_reversed(items), next))
        },
    }
}

proof fn lemma_reached_in_log(records: Seq<SessionRecord>, from: Option<usize>, target: usize)
    requires
        from matches Some(i) ==> i < records.len(),
        reaches(records, from, target),
    ensures
        target < records.len(),
    decreases
            match from {
                Some(i) => i + 1,
                None => 0,
            },
{
    match from {
        Some(i) => {
            if i != target {
                match records[i as int].parent {
                    Some(p) => {
                        lemma_reached_in_log(records, Some(p), target);
                    },
                    None => {},
                }
            }
        },
        None => {},
    }
}

proof fn lemma_walk_moves_back(
    records: Seq<SessionRecord>,
    next: Option<usize>,
    steps: nat,
    items: Seq<Seq<char>>,
    bytes: int,
    read: int,
)
    requires
        forall|i: int| 0 <= i < records.len() ==> match (#[trigger] records[i]).parent {
            Some(p) => p < i,
            None => true,
        },
    ensures
        items.len() < PAGE_MESSAGES ==> walk(records, next, steps, items, bytes, read).0.len() <= PAGE_MESSAGES,
        walk(records, next, steps, items, bytes, read).1 matches Some(c) ==> next is Some && c <= next->0 && (c
            == next->0 ==> (steps == 0 || next->0 >= records.len() || items.len() > 0)),
    decreases steps,
{
    if steps > 0 {
        match next {
            Some(id) => {
                if id < records.len() {
                    let r = records[id as int];
                    if !is_message(r.kind) {
                        lemma_walk_moves_back(records, r.parent, (steps - 1) as nat, items, bytes, read);
                    } else {
                        let item = item_view(id as nat, r);
                        let items2 = items.push(item);
                        lemma_walk_moves_back(
                            records,
                            r.parent,
                            (steps - 1) as nat,
                            items2,
                            bytes + utf8_len(item),
                            read + r.length,
                        );
                    }
                }
            },
            None => {},
        }
    }
}

proof fn lemma_reaches_parent(records: Seq<SessionRecord>, from: Option<usize>, id: usize, p: usize)
    requires
        reaches(records, from, id),
        id < records.len(),
        records[id as int].parent == Some(p),
        p < id,
    ensures
        reaches(records, from, p),
    decreases
            match from {
                Some(i) => i + 1,
                None => 0,
            },
{
    match from {
        Some(i) => {
            if i == id {
                assert(reaches(records, Some(p), p));
            } else if i != p {
                match records[i as int].parent {
                    Some(q) => {
                        lemma_reaches_parent(records, Some(q), id, p);
                    },
                    None => {},
                }
            }
        },
        None => {},
    }
}

proof fn lemma_walk_page(
    records: Seq<SessionRecord>,
    start: usize,
    next: Option<usize>,
    steps: nat,
    items: Seq<Seq<char>>,
    bytes: int,
    read: int,
)
    requires
        forall|i: int| 0 <= i < records.len() ==> match (#[trigger] records[i]).parent {
            Some(p) => p < i,
            None => true,
        },
        bytes == utf8_len(join_reversed(items)),
        items.len() > 1 ==> bytes <= PAGE_BYTES,
        next matches Some(id) ==> reaches(records, Some(start), id),
    ensures
        walk(records, next, steps, items, bytes, read).0.len() > 1 ==> utf8_len(
            join_reversed(walk(records, next, steps, items, bytes, read).0),
        ) <= PAGE_BYTES,
        walk(records, next, steps, items, bytes, read).1 matches Some(c) ==> reaches(records, Some(start), c),
    decreases steps,
{
    if steps > 0 {
        match next {
            Some(id) => {
                if id < records.len() {
                    let r = records[id as int];
                    match r.parent {
                        Some(p) => {
                            assert(p < id);
                            lemma_reaches_parent(records, Some(start), id, p);
                        },
                        None => {},
                    }
                    if !is_message(r.kind) {
                        lemma_walk_page(records, start, r.parent, (steps - 1) as nat, items, bytes, read);
                    } else {
                        let item = item_view(id as nat, r);
                        if !(bytes + utf8_len(item) > PAGE_BYTES && items.len() > 0) {
                            let items2 = items.push(item);
                            assert(items2.drop_last() =~= items);
                            lemma_utf8_len_concat(item, join_reversed(items));
                            lemma_walk_page(
                                records,
                                start,
                                r.parent,
                                (steps - 1) as nat,
                                items2,
                                bytes + utf8_len(item),
                                read + r.length,
                            );
                        }
                    }
                }
            },
            None => {},
        }
    }
}

proof fn lemma_reaches_trans(records: Seq<SessionRecord>, from: Option<usize>, mid: usize, target: usize)
    requires
        reaches(records, from, mid),
        reaches(records, Some(mid), target),
    ensures
        reaches(records, from, target),
    decreases
            match from {
                Some(i) => i + 1,
                None => 0,
            },
{
    match from {
        Some(i) => {
            if i != mid && i != target {
                match records[i as int].parent {
                    Some(q) => {
                        lemma_reaches_trans(records, Some(q), mid, target);
                    },
                    None => {},
                }
            }
        },
        None => {},
    }
}

/// Paging walks back along the active branch: a page holds at most 64
/// messages and, beyond its first message, at most 64 KiB of text; the next
/// page, when there is one, starts at an older record of the same branch
/// than this page did, so that paging back from the head comes to an end.
pub proof fn lemma_pages_move_back(records: Seq<SessionRecord>, head: Option<usize>, cursor: Option<usize>)
    requires
        log_wf(records, head),
    ensures
        transcript_page_spec(records, head, cursor) is Ok && (cursor is Some || head is Some) ==> {
            let start = match cursor {
                Some(c) => c,
                None => head->0,
            };
            &&& walk(records, Some(start), PAGE_STEPS as nat, Seq::empty(), 0, 0).0.len() <= PAGE_MESSAGES
            &&& (walk(records, Some(start), PAGE_STEPS as nat, Seq::empty(), 0, 0).0.len() > 1 ==> utf8_len(
                transcript_page_spec(records, head, cursor)->Ok_0.0,
            ) <= PAGE_BYTES)
            &&& (transcript_page_spec(records, head, cursor)->Ok_0.1 matches Some(c) ==> c < start && reaches(
                records,
                Some(start),
                c,
            ) && reaches(records, head, c))
        },
{
    let start = match cursor {
        Some(c) => Some(c),
        None => head,
    };
    if let Some(s) = start {
        if reaches(records, head, s) {
            lemma_reached_in_log(records, head, s);
            lemma_walk_moves_back(records, Some(s), PAGE_STEPS as nat, Seq::empty(), 0, 0);
            assert(reaches(records, Some(s), s));
            lemma_walk_page(records, s, Some(s), PAGE_STEPS as nat, Seq::empty(), 0, 0);
            let next = walk(records, Some(s), PAGE_STEPS as nat, Seq::empty(), 0, 0).1;
            if let Some(c) = next {
                lemma_reaches_trans(records, head, s, c);
            }
        }
    }
}

fn digit(d: usize) -> (c: char)
    requires
        d < 10,
    ensures
        c == digit_char(d as nat),
{
    if d == 0 {
        '0'
    } else if d == 1 {
        '1'
    } else if d == 2 {
        '2'
    } else if d == 3 {
        '3'
    } else if d == 4 {
        '4'
    } else if d == 5 {
        '5'
    } else if d == 6 {
        '6'
    } else if d == 7 {
        '7'
    } else if d == 8 {
        '8'
    } else {
        '9'
    }
}

/// Append the decimal digits of `n`.
pub(crate) fn push_decimal(out: &mut String, n: usize)
    ensures
        final(out)@ == old(out)@ + decimal(n as nat),
    decreases n,
{
    if n >= 10 {
        push_decimal(out, n / 10);
    }
    push_char(out, digit(n % 10));
    proof {
        if n >= 10 {
            assert(old(out)@ + decimal((n / 10) as nat) + seq![digit_char((n % 10) as nat)] =~= old(out)@
                + decimal(n as nat));
        } else {
            assert(old(out)@ + seq![digit_char((n % 10) as nat)] =~= old(out)@ + decimal(n as nat));
        }
    }
}

/// The end of the longest prefix of `s` within `limit` bytes.
fn fit_prefix(s: &Vec<char>, limit: usize) -> (r: usize)
    ensures
        r == fit_end(s@, limit as int, 0, 0),
        r <= s@.len(),
{
    let n = s.len();
    let mut used: usize = 0;
    let mut i: usize = 0;
    while i < n
        invariant
            n == s@.len(),
            0 <= i <= n,
            used <= limit,
            fit_end(s@, limit as int, 0, 0) == fit_end(s@, limit as int, i as int, used as int),
        decreases n - i,
    {
        let w = char_utf8_len(s[i]);
        if w > limit - used {
            return i;
        }
        used = used + w;
        i = i + 1;
    }
    i
}

fn block_text(out: &mut String, b: &ContentBlock)
    ensures
        final(out)@ == old(out)@ + block_view(*b),
{
    match b {
        ContentBlock::Text(t) => {
            out.append(t.as_str());
        },
        ContentBlock::Reasoning(t) => {
            out.append("\n[Reasoning summary]\n");
            out.append(t.as_str());
            proof {
                assert(old(out)@ + "\n[Reasoning summary]\n"@ + t@ =~= old(out)@ + ("\n[Reasoning summary]\n"@
                    + t@));
            }
        },
        ContentBlock::Image => {
            out.append("\n[Image attachment]\n");
        },
        ContentBlock::Other => {
            proof {
                assert(old(out)@ + Seq::<char>::empty() =~= old(out)@);
            }
        },
    }
}

/// The full text of a conversation record.
fn content_text(r: &SessionRecord) -> (s: String)
    ensures
        s@ == record_content(*r),
{
    let mut out = String::new();
    match &r.payload {
        RecordPayload::Entry { text, pretty_json, content } => {
            if r.kind == RecordKind::ToolResult {
                out.append(text.as_str());
            } else if r.kind == RecordKind::ToolCall {
                out.append("```json\n");
                out.append(pretty_json.as_str());
                out.append("\n```");
            }
            let ghost base = out@;
            let shown = if content.len() > MESSAGE_BLOCKS {
                MESSAGE_BLOCKS
            } else {
                content.len()
            };
            let mut i: usize = 0;
            proof {
                assert(content@.take(0) =~= Seq::<ContentBlock>::empty());
            }
            while i < shown
                invariant
                    shown <= content@.len(),
                    0 <= i <= shown,
                    out@ == base + blocks_view(content@.take(i as int)),
                decreases shown - i,
            {
                block_text(&mut out, &content[i]);
                proof {
                    assert(content@.take(i + 1).drop_last() =~= content@.take(i as int));
                    assert(base + blocks_view(content@.take(i as int)) + block_view(content@[i as int])
                        =~= base + blocks_view(content@.take(i + 1)));
                }
                i = i + 1;
            }
            proof {
                if content@.len() > MESSAGE_BLOCKS {
                    assert(content@.take(shown as int) =~= content@.take(MESSAGE_BLOCKS as int));
                } else {
                    assert(content@.take(shown as int) =~= content@);
                }
                if r.kind != RecordKind::ToolResult && r.kind != RecordKind::ToolCall {
                    assert(base =~= Seq::<char>::empty());
                }
            }
        },
        _ => {},
    }
    out
}

/// A message as shown on a page.
fn message_text(content: String) -> (r: String)
    ensures
        r@ == message_view(content@),
{
    let chars = str_chars(content.as_str());
    let end = fit_prefix(&chars, MESSAGE_VIEW_BYTES);
    if end < chars.len() {
        let kept = crate::text::chars_between(&chars, 0, end);
        let mut r = string_from_chars(kept.as_slice());
        r.append("\n[Long message truncated in this view; original remains in the session]");
        proof {
            assert(chars@.subrange(0, end as int) =~= chars@.take(end as int));
        }
        r
    } else {
        content
    }
}

/// The page item of the record at `id`.
fn item_text(id: usize, r: &SessionRecord) -> (s: String)
    ensures
        s@ == item_view(id as nat, *r),
{
    let mut out = String::new();
    out.append("## ");
    let role = match r.kind {
        RecordKind::User => "You",
        RecordKind::Assistant => "Antex",
        RecordKind::ToolCall => "Tool call",
        _ => "Tool result",
    };
    out.append(role);
    out.append(" · ");
    push_decimal(&mut out, id);
    out.append("\n\n");
    let message = message_text(content_text(r));
    out.append(message.as_str());
    out.append("\n\n");
    proof {
        assert(out@ =~= item_view(id as nat, *r));
    }
    out
}

fn is_message_kind(kind: RecordKind) -> (r: bool)
    ensures
        r == is_message(kind),
{
    kind == RecordKind::User || kind == RecordKind::Assistant || kind == RecordKind::ToolCall || kind
        == RecordKind::ToolResult
}

impl Session {
    /// One page of the conversation, paging back from `cursor` (the newest
    /// record when there is none): at most 64 messages and, beyond the first
    /// message, 64 KiB of text, read from at most 8 MiB of log and 4096
    /// records; oldest message first. Messages over 48 KiB are cut with a
    /// note. The page's cursor is where the next, older page starts.
    pub fn transcript_page(&self, cursor: Option<usize>) -> (r: Result<TranscriptPage, String>)
        requires
            self.wf(),
        ensures
            match r {
                Ok(page) => transcript_page_spec(self.records@, self.head, cursor) == Ok::<
                    (Seq<char>, Option<usize>),
                    Seq<char>,
                >((page.text@, page.next_cursor)),
                Err(e) => transcript_page_spec(self.records@, self.head, cursor) == Err::<
                    (Seq<char>, Option<usize>),
                    Seq<char>,
                >(e@),
            },
    {
        let start = match cursor {
            Some(c) => c,
            None => match self.head {
                Some(h) => h,
                None => {
                    return Ok(TranscriptPage { text: String::new(), next_cursor: None });
                },
            },
        };
        let mut probe = self.head;
        while probe.is_some() && probe.unwrap() != start
            invariant
                self.wf(),
                reaches(self.records@, self.head, start) == reaches(self.records@, probe, start),
                match probe {
                    Some(i) => i < self.records@.len(),
                    None => true,
                },
            decreases
                    match probe {
                        Some(i) => i + 1,
                        None => 0,
                    },
        {
            let id = probe.unwrap();
            proof {
                assert(self.records@[id as int].parent == self.records[id as int].parent);
            }
            probe = self.records[id].parent;
        }
        if probe.is_none() {
            return Err(owned("transcript cursor is not on the active branch"));
        }
        let ghost records = self.records@;
        let mut next: Option<usize> = Some(start);
        let mut items: Vec<String> = Vec::new();
        let ghost mut gitems: Seq<Seq<char>> = Seq::empty();
        let mut bytes: u128 = 0;
        let mut read: u128 = 0;
        let mut step: usize = 0;
        let ghost target = walk(records, Some(start), PAGE_STEPS as nat, Seq::empty(), 0, 0);
        while step < PAGE_STEPS
            invariant_except_break
                bytes <= 0x100000000000000000000u128,
                gitems.len() == 0 ==> bytes == 0,
                read < PAGE_READ_BYTES,
                gitems.len() < PAGE_MESSAGES,
                target == walk(records, next, (PAGE_STEPS - step) as nat, gitems, bytes as int, read as int),
            invariant
                records == self.records@,
                log_wf(records, self.head),
                0 <= step <= PAGE_STEPS,
                items@.len() == gitems.len(),
                forall|i: int| 0 <= i < gitems.len() ==> #[trigger] items@[i]@ == gitems[i],
                target == walk(records, Some(start), PAGE_STEPS as nat, Seq::empty(), 0, 0),
            ensures
                target == (gitems, next),
            decreases PAGE_STEPS - step,
        {
            let id = match next {
                Some(id) => id,
                None => break,
            };
            if id >= self.records.len() {
                break;
            }
            let record = &self.records[id];
            if !is_message_kind(record.kind) {
                next = record.parent;
                step = step + 1;
                continue;
            }
            let item = item_text(id, record);
            let size = utf8_count(item.as_str());
            if bytes + size > PAGE_BYTES as u128 && items.len() > 0 {
                break;
            }
            proof {
                gitems = gitems.push(item@);
            }
            items.push(item);
            bytes = bytes + size;
            read = read + record.length as u128;
            next = record.parent;
            proof {
                assert forall|i: int| 0 <= i < gitems.len() implies #[trigger] items@[i]@ == gitems[i] by {}
            }
            if items.len() >= PAGE_MESSAGES || read >= PAGE_READ_BYTES as u128 {
                break;
            }
            step = step + 1;
        }
        let mut text = String::new();
        let mut i: usize = items.len();
        proof {
            assert(gitems.take(gitems.len() as int) =~= gitems);
            assert(text@ + join_reversed(gitems) =~= join_reversed(gitems));
        }
        while i > 0
            invariant
                items@.len() == gitems.len(),
                forall|t: int| 0 <= t < gitems.len() ==> #[trigger] items@[t]@ == gitems[t],
                0 <= i <= items@.len(),
                text@ + join_reversed(gitems.take(i as int)) == join_reversed(gitems),
            decreases i,
        {
            i = i - 1;
            text.append(items[i].as_str());
            proof {
                assert(gitems.take(i + 1).drop_last() =~= gitems.take(i as int));
                assert(gitems.take(i + 1).last() == gitems[i as int]);
            }
        }
        proof {
            assert(gitems.take(0) =~= Seq::<Seq<char>>::empty());
            assert(text@ + Seq::<char>::empty() =~= text@);
        }
        Ok(TranscriptPage { text, next_cursor: next })
    }
}

} // verus!

//! Conflict checks over groups of action bindings that are evaluated
//! together by one input path.

use vstd::prelude::*;
use vstd::string::*;
use crate::keys::{KeyBinding, KeyCode, normalized_key, plain};

verus! {

/// The abstract form of `(action, bindings)` pairs.
pub open spec fn pairs_view(pairs: Seq<(&str, &[KeyBinding])>) -> Seq<(Seq<char>, Seq<KeyBinding>)> {
    pairs.map_values(|p: (&str, &[KeyBinding])| (p.0@, p.1@))
}

/// Every `(action, binding)` entry of the pairs, in order.
pub open spec fn flatten(pairs: Seq<(Seq<char>, Seq<KeyBinding>)>) -> Seq<(Seq<char>, KeyBinding)>
    decreases pairs.len(),
{
    if pairs.len() == 0 {
        Seq::empty()
    } else {
        flatten(pairs.drop_last()) + pairs.last().1.map_values(
            |b: KeyBinding| (pairs.last().0, b),
        )
    }
}

/// The index of the last entry whose key is the same as `b`.
pub open spec fn last_with_key(es: Seq<(Seq<char>, KeyBinding)>, b: KeyBinding) -> Option<int>
    decreases es.len(),
{
    if es.len() == 0 {
        None
    } else if normalized_key(es.last().1) == normalized_key(b) {
        Some(es.len() - 1)
    } else {
        last_with_key(es.drop_last(), b)
    }
}

/// The first conflict among entries that must use distinct keys, as
/// `(earlier action, later action)`.
pub open spec fn first_duplicate(es: Seq<(Seq<char>, KeyBinding)>) -> Option<(Seq<char>, Seq<char>)>
    decreases es.len(),
{
    if es.len() == 0 {
        None
    } else {
        match first_duplicate(es.drop_last()) {
            Some(p) => Some(p),
            None => match last_with_key(es.drop_last(), es.last().1) {
                Some(i) => Some((es[i].0, es.last().0)),
                None => None,
            },
        }
    }
}

pub open spec fn duplicate_message(context: Seq<char>, previous: Seq<char>, action: Seq<char>) -> Seq<
    char,
> {
    "Ambiguous `tui.keymap."@ + context + "` bindings: `"@ + previous + "` and `"@ + action
        + "` use the same key. Set unique keys in `~/.codex/config.toml` and retry. See the Codex keymap documentation for supported actions and examples."@
}

pub open spec fn shadow_message(context: Seq<char>, previous: Seq<char>, action: Seq<char>) -> Seq<
    char,
> {
    "Ambiguous `tui.keymap."@ + context + "` bindings: `"@ + previous + "` shadows `"@ + action
        + "` with the same key. Set unique keys in `~/.codex/config.toml` and retry. See the Codex keymap documentation for supported actions and examples."@
}

pub open spec fn reserved_message(context: Seq<char>, action: Seq<char>, reserved: Seq<char>) -> Seq<
    char,
> {
    "Ambiguous `tui.keymap."@ + context + "` bindings: `"@ + action + "` uses a key reserved by `"@
        + reserved
        + "`. Set a different key in `~/.codex/config.toml` and retry. See the Codex keymap documentation for supported actions and examples."@
}

pub open spec fn overlay_message(previous: Seq<char>, action: Seq<char>) -> Seq<char> {
    "Ambiguous approval overlay keymap bindings: `"@ + previous + "` and `"@ + action
        + "` use the same key. Set unique keys in `~/.codex/config.toml` and retry. See the Codex keymap documentation for supported actions and examples."@
}

/// The outcome of checking that no key is used twice.
pub open spec fn unique_spec(context: Seq<char>, pairs: Seq<(Seq<char>, Seq<KeyBinding>)>) -> Result<
    (),
    Seq<char>,
> {
    match first_duplicate(flatten(pairs)) {
        None => Ok(()),
        Some((previous, action)) => Err(duplicate_message(context, previous, action)),
    }
}

/// Whether an executable check result agrees with its spec.
pub open spec fn check_matches(r: Result<(), String>, s: Result<(), Seq<char>>) -> bool {
    match (r, s) {
        (Ok(()), Ok(())) => true,
        (Err(m), Err(e)) => m@ == e,
        _ => false,
    }
}

/// Every `(action, binding)` entry of the pairs, in order.
pub fn flatten_pairs<'a>(pairs: &[(&'a str, &[KeyBinding])]) -> (r: Vec<(&'a str, KeyBinding)>)
    ensures
        r@.map_values(|e: (&str, KeyBinding)| (e.0@, e.1)) == flatten(pairs_view(pairs@)),
{
    let ghost pv = pairs_view(pairs@);
    let mut r: Vec<(&'a str, KeyBinding)> = Vec::new();
    let mut i: usize = 0;
    proof {
        assert(pv.take(0) =~= Seq::<(Seq<char>, Seq<KeyBinding>)>::empty());
        assert(r@.map_values(|e: (&str, KeyBinding)| (e.0@, e.1)) =~= flatten(pv.take(0)));
    }
    while i < pairs.len()
        invariant
            pv == pairs_view(pairs@),
            0 <= i <= pairs@.len(),
            r@.map_values(|e: (&str, KeyBinding)| (e.0@, e.1)) == flatten(pv.take(i as int)),
        decreases pairs@.len() - i,
    {
        let (action, bindings) = pairs[i];
        let ghost before = r@.map_values(|e: (&str, KeyBinding)| (e.0@, e.1));
        let mut j: usize = 0;
        while j < bindings.len()
            invariant
                0 <= j <= bindings@.len(),
                r@.map_values(|e: (&str, KeyBinding)| (e.0@, e.1)) == before + bindings@.take(
                    j as int,
                ).map_values(|b: KeyBinding| (action@, b)),
            decreases bindings@.len() - j,
        {
            let ghost prev = r@;
            r.push((action, bindings[j]));
            proof {
                assert(r@.map_values(|e: (&str, KeyBinding)| (e.0@, e.1)) =~= prev.map_values(
                    |e: (&str, KeyBinding)| (e.0@, e.1),
                ).push((action@, bindings@[j as int])));
                assert(bindings@.take(j + 1).map_values(|b: KeyBinding| (action@, b))
                    =~= bindings@.take(j as int).map_values(|b: KeyBinding| (action@, b)).push(
                    (action@, bindings@[j as int]),
                ));
            }
            j = j + 1;
        }
        proof {
            assert(bindings@.take(bindings@.len() as int) =~= bindings@);
            assert(pv.take(i + 1).drop_last() =~= pv.take(i as int));
            assert(pv.take(i + 1).last() == (action@, bindings@));
        }
        i = i + 1;
    }
    proof {
        assert(pv.take(pairs@.len() as int) =~= pv);
    }
    r
}

/// The index of the last entry of `es[..n]` whose key is the same as `b`.
fn find_last_key(es: &Vec<(&str, KeyBinding)>, n: usize, b: KeyBinding) -> (r: Option<usize>)
    requires
        n <= es@.len(),
    ensures
        r matches Some(i) ==> i < n,
        match r {
            Some(i) => last_with_key(
                es@.take(n as int).map_values(|e: (&str, KeyBinding)| (e.0@, e.1)),
                b,
            ) == Some(i as int),
            None => last_with_key(
                es@.take(n as int).map_values(|e: (&str, KeyBinding)| (e.0@, e.1)),
                b,
            ) is None,
        },
{
    let key = b.normalized();
    let mut k = n;
    while k > 0
        invariant
            k <= n <= es@.len(),
            key == normalized_key(b),
            last_with_key(es@.take(n as int).map_values(|e: (&str, KeyBinding)| (e.0@, e.1)), b)
                == last_with_key(
                es@.take(k as int).map_values(|e: (&str, KeyBinding)| (e.0@, e.1)),
                b,
            ),
        decreases k,
    {
        let ghost v = es@.take(k as int).map_values(|e: (&str, KeyBinding)| (e.0@, e.1));
        proof {
            assert(v.drop_last() =~= es@.take(k - 1).map_values(
                |e: (&str, KeyBinding)| (e.0@, e.1),
            ));
            assert(v.last().1 == es@[k - 1].1);
        }
        if es[k - 1].1.normalized() == key {
            return Some(k - 1);
        }
        k = k - 1;
    }
    None
}

fn message3(a: &str, b: &str, c: &str, d: &str, e: &str, f: &str, g: &str) -> (m: String)
    ensures
        m@ == a@ + b@ + c@ + d@ + e@ + f@ + g@,
{
    let mut m = String::new();
    m.append(a);
    m.append(b);
    m.append(c);
    m.append(d);
    m.append(e);
    m.append(f);
    m.append(g);
    proof {
        assert(m@ =~= a@ + b@ + c@ + d@ + e@ + f@ + g@);
    }
    m
}

fn message5(a: &str, b: &str, c: &str, d: &str, e: &str) -> (m: String)
    ensures
        m@ == a@ + b@ + c@ + d@ + e@,
{
    let mut m = String::new();
    m.append(a);
    m.append(b);
    m.append(c);
    m.append(d);
    m.append(e);
    proof {
        assert(m@ =~= a@ + b@ + c@ + d@ + e@);
    }
    m
}

/// Reject duplicate keys inside one effective context map. The same key may
/// appear in different contexts: handlers evaluate one context at a time.
pub fn validate_unique(context: &str, pairs: &[(&str, &[KeyBinding])]) -> (r: Result<(), String>)
    ensures
        check_matches(r, unique_spec(context@, pairs_view(pairs@))),
{
    let es = flatten_pairs(pairs);
    let ghost ev = es@.map_values(|e: (&str, KeyBinding)| (e.0@, e.1));
    let mut i: usize = 0;
    proof {
        assert(ev.take(0) =~= Seq::<(Seq<char>, KeyBinding)>::empty());
    }
    while i < es.len()
        invariant
            ev == es@.map_values(|e: (&str, KeyBinding)| (e.0@, e.1)),
            ev == flatten(pairs_view(pairs@)),
            0 <= i <= es@.len(),
            first_duplicate(ev.take(i as int)) is None,
        decreases es@.len() - i,
    {
        let (action, b) = es[i];
        proof {
            assert(ev.take(i + 1).drop_last() =~= ev.take(i as int));
            assert(ev.take(i as int) =~= es@.take(i as int).map_values(
                |e: (&str, KeyBinding)| (e.0@, e.1),
            ));
            assert(ev.take(i + 1).last() == (action@, b));
        }
        match find_last_key(&es, i, b) {
            Some(j) => {
                let previous = es[j].0;
                proof {
                    assert(ev.take(i as int)[j as int].0 == previous@);
                    lemma_duplicate_persists(ev, i + 1);
                }
                return Err(
                    message3(
                        "Ambiguous `tui.keymap.",
                        context,
                        "` bindings: `",
                        previous,
                        "` and `",
                        action,
                        "` use the same key. Set unique keys in `~/.codex/config.toml` and retry. See the Codex keymap documentation for supported actions and examples.",
                    ),
                );
            },
            None => {},
        }
        i = i + 1;
    }
    proof {
        assert(ev.take(es@.len() as int) =~= ev);
    }
    Ok(())
}

/// Once a prefix of the entries holds a duplicate, the first duplicate of
/// all entries is that one.
pub proof fn lemma_duplicate_persists(es: Seq<(Seq<char>, KeyBinding)>, k: int)
    requires
        0 <= k <= es.len(),
        first_duplicate(es.take(k)) is Some,
    ensures
        first_duplicate(es) == first_duplicate(es.take(k)),
    decreases es.len() - k,
{
    if k < es.len() {
        assert(es.take(k + 1).drop_last() =~= es.take(k));
        lemma_duplicate_persists(es, k + 1);
    } else {
        assert(es.take(k) =~= es);
    }
}


proof fn lemma_last_with_key(es: Seq<(Seq<char>, KeyBinding)>, b: KeyBinding)
    ensures
        last_with_key(es, b) matches Some(i) ==> 0 <= i < es.len() && normalized_key(es[i].1)
            == normalized_key(b),
        last_with_key(es, b) is None ==> forall|i: int|
            0 <= i < es.len() ==> normalized_key(#[trigger] es[i].1) != normalized_key(b),
    decreases es.len(),
{
    if es.len() > 0 {
        let d = es.drop_last();
        lemma_last_with_key(d, b);
        assert forall|i: int| 0 <= i < d.len() implies #[trigger] d[i] == es[i] by {}
        if last_with_key(es, b) is None {
            assert forall|i: int| 0 <= i < es.len() implies normalized_key(#[trigger] es[i].1)
                != normalized_key(b) by {
                if i < d.len() {
                    assert(d[i] == es[i]);
                }
            }
        }
    }
}

proof fn lemma_first_duplicate_positions(es: Seq<(Seq<char>, KeyBinding)>)
    ensures
        first_duplicate(es) is None <==> forall|i: int, j: int|
            0 <= i < j < es.len() ==> normalized_key(#[trigger] es[i].1) != normalized_key(
                #[trigger] es[j].1,
            ),
        first_duplicate(es) matches Some(p) ==> exists|i: int, j: int|
            0 <= i < j < es.len() && normalized_key(#[trigger] es[i].1) == normalized_key(
                #[trigger] es[j].1,
            ) && es[i].0 == p.0 && es[j].0 == p.1,
    decreases es.len(),
{
    if es.len() > 0 {
        let d = es.drop_last();
        let n = es.len() - 1;
        lemma_first_duplicate_positions(d);
        lemma_last_with_key(d, es.last().1);
        assert forall|i: int| 0 <= i < d.len() implies #[trigger] d[i] == es[i] by {}
        match first_duplicate(d) {
            Some(p) => {
                let (i, j) = choose|i: int, j: int|
                    0 <= i < j < d.len() && normalized_key(#[trigger] d[i].1) == normalized_key(
                        #[trigger] d[j].1,
                    ) && d[i].0 == p.0 && d[j].0 == p.1;
                assert(d[i] == es[i] && d[j] == es[j]);
            },
            None => {
                match last_with_key(d, es.last().1) {
                    Some(i) => {
                        assert(d[i] == es[i]);
                        assert(es[n] == es.last());
                    },
                    None => {
                        assert forall|i: int, j: int|
                            0 <= i < j < es.len() implies normalized_key(#[trigger] es[i].1)
                            != normalized_key(#[trigger] es[j].1) by {
                            assert(d[i] == es[i]);
                            if j < n {
                                assert(d[j] == es[j]);
                            } else {
                                assert(es[j] == es.last());
                            }
                        }
                    },
                }
            },
        }
    }
}

/// Unique keys within one context: the check passes exactly when no two
/// entries at different positions, across all the pairs, share a normalized
/// key (a key repeated inside one action counts too); a refusal names the
/// context and the actions of two such entries, the earlier one first.
pub proof fn lemma_unique_iff_no_shared_key(context: Seq<char>, pairs: Seq<(Seq<char>, Seq<KeyBinding>)>)
    ensures
        unique_spec(context, pairs) is Ok <==> forall|i: int, j: int|
            0 <= i < j < flatten(pairs).len() ==> normalized_key(#[trigger] flatten(pairs)[i].1)
                != normalized_key(#[trigger] flatten(pairs)[j].1),
        unique_spec(context, pairs) is Err ==> exists|i: int, j: int|
            0 <= i < j < flatten(pairs).len() && normalized_key(#[trigger] flatten(pairs)[i].1)
                == normalized_key(#[trigger] flatten(pairs)[j].1) && unique_spec(context, pairs)
                == Err::<(), Seq<char>>(
                duplicate_message(context, flatten(pairs)[i].0, flatten(pairs)[j].0),
            ),
{
    lemma_first_duplicate_positions(flatten(pairs));
}

/// Whether no two keys at different places of `fs` (inside one action or
/// across actions) are the same key.
pub open spec fn keys_disjoint(fs: Seq<Seq<KeyBinding>>) -> bool {
    forall|p: int, q: int, i: int, j: int|
        0 <= p < fs.len() && 0 <= q < fs.len() && 0 <= i < fs[p].len() && 0 <= j < fs[q].len() && (p != q || i
            != j) ==> normalized_key(#[trigger] fs[p][i]) != normalized_key(#[trigger] fs[q][j])
}

proof fn lemma_flatten_take(pairs: Seq<(Seq<char>, Seq<KeyBinding>)>, p: int)
    requires
        0 <= p < pairs.len(),
    ensures
        flatten(pairs.take(p + 1)) == flatten(pairs.take(p)) + pairs[p].1.map_values(
            |b: KeyBinding| (pairs[p].0, b),
        ),
{
    assert(pairs.take(p + 1).drop_last() =~= pairs.take(p));
    assert(pairs.take(p + 1).last() == pairs[p]);
}

proof fn lemma_flatten_prefix(pairs: Seq<(Seq<char>, Seq<KeyBinding>)>, p: int)
    requires
        0 <= p <= pairs.len(),
    ensures
        flatten(pairs.take(p)).is_prefix_of(flatten(pairs)),
    decreases pairs.len(),
{
    if p == pairs.len() {
        assert(pairs.take(p) =~= pairs);
    } else {
        let d = pairs.drop_last();
        assert(d.take(p) =~= pairs.take(p));
        lemma_flatten_prefix(d, p);
    }
}

proof fn lemma_flatten_at(pairs: Seq<(Seq<char>, Seq<KeyBinding>)>, p: int, i: int)
    requires
        0 <= p < pairs.len(),
        0 <= i < pairs[p].1.len(),
    ensures
        flatten(pairs.take(p)).len() + i < flatten(pairs.take(p + 1)).len() <= flatten(pairs).len(),
        flatten(pairs)[flatten(pairs.take(p)).len() + i] == (pairs[p].0, pairs[p].1[i]),
{
    lemma_flatten_take(pairs, p);
    lemma_flatten_prefix(pairs, p + 1);
    let o = flatten(pairs.take(p)).len();
    let big = flatten(pairs.take(p + 1));
    assert(big[o + i] == (pairs[p].0, pairs[p].1[i]));
    assert(flatten(pairs)[o + i] == big[o + i]);
}

proof fn lemma_offset_mono(pairs: Seq<(Seq<char>, Seq<KeyBinding>)>, p: int, q: int)
    requires
        0 <= p <= q <= pairs.len(),
    ensures
        flatten(pairs.take(p)).len() <= flatten(pairs.take(q)).len(),
{
    let t = pairs.take(q);
    assert(t.take(p) =~= pairs.take(p));
    lemma_flatten_prefix(t, p);
}

/// Unique keys within a context: when the check passes, no key comes twice
/// among the actions' keys, inside one action or across two.
pub proof fn lemma_unique_keys_disjoint(context: Seq<char>, pairs: Seq<(Seq<char>, Seq<KeyBinding>)>)
    requires
        unique_spec(context, pairs) is Ok,
    ensures
        keys_disjoint(pairs.map_values(|x: (Seq<char>, Seq<KeyBinding>)| x.1)),
{
    let fs = pairs.map_values(|x: (Seq<char>, Seq<KeyBinding>)| x.1);
    let flat = flatten(pairs);
    lemma_unique_iff_no_shared_key(context, pairs);
    assert forall|p: int, q: int, i: int, j: int|
        0 <= p < fs.len() && 0 <= q < fs.len() && 0 <= i < fs[p].len() && 0 <= j < fs[q].len() && (p != q || i
            != j) implies normalized_key(#[trigger] fs[p][i]) != normalized_key(#[trigger] fs[q][j]) by {
        lemma_flatten_at(pairs, p, i);
        lemma_flatten_at(pairs, q, j);
        let a = flatten(pairs.take(p)).len() + i;
        let b = flatten(pairs.take(q)).len() + j;
        if p < q {
            lemma_offset_mono(pairs, p + 1, q);
        } else if q < p {
            lemma_offset_mono(pairs, q + 1, p);
        }
        assert(a != b);
        assert(flat[a].1 == fs[p][i]);
        assert(flat[b].1 == fs[q][j]);
        if a < b {
            assert(normalized_key(flat[a].1) != normalized_key(flat[b].1));
        } else {
            assert(normalized_key(flat[b].1) != normalized_key(flat[a].1));
        }
    }
}

/// The abstract form of allowed `(first action, second action, key)` overlaps.
pub open spec fn allowed_view(allowed: Seq<(&str, &str, KeyBinding)>) -> Seq<
    (Seq<char>, Seq<char>, KeyBinding),
> {
    allowed.map_values(|a: (&str, &str, KeyBinding)| (a.0@, a.1@, a.2))
}

/// Whether the overlap of `previous` and `action` on the key of `b` is allowed.
pub open spec fn allowed_shadow(
    allowed: Seq<(Seq<char>, Seq<char>, KeyBinding)>,
    previous: Seq<char>,
    action: Seq<char>,
    b: KeyBinding,
) -> bool {
    exists|i: int|
        0 <= i < allowed.len() && #[trigger] allowed[i].0 == previous && allowed[i].1 == action
            && normalized_key(allowed[i].2) == normalized_key(b)
}

/// The first shadowed entry whose key a primary action already handles, as
/// `(primary action, shadowed action)`. When several primary actions hold
/// the key, the last of them is the one reported.
pub open spec fn first_shadow(
    primary: Seq<(Seq<char>, KeyBinding)>,
    shadowed: Seq<(Seq<char>, KeyBinding)>,
    allowed: Seq<(Seq<char>, Seq<char>, KeyBinding)>,
) -> Option<(Seq<char>, Seq<char>)>
    decreases shadowed.len(),
{
    if shadowed.len() == 0 {
        None
    } else {
        match first_shadow(primary, shadowed.drop_last(), allowed) {
            Some(p) => Some(p),
            None => match last_with_key(primary, shadowed.last().1) {
                Some(i) => if allowed_shadow(
                    allowed,
                    primary[i].0,
                    shadowed.last().0,
                    shadowed.last().1,
                ) {
                    None
                } else {
                    Some((primary[i].0, shadowed.last().0))
                },
                None => None,
            },
        }
    }
}

pub open spec fn shadow_spec(
    context: Seq<char>,
    primary: Seq<(Seq<char>, Seq<KeyBinding>)>,
    shadowed: Seq<(Seq<char>, Seq<KeyBinding>)>,
    allowed: Seq<(Seq<char>, Seq<char>, KeyBinding)>,
) -> Result<(), Seq<char>> {
    match first_shadow(flatten(primary), flatten(shadowed), allowed) {
        None => Ok(()),
        Some((previous, action)) => Err(shadow_message(context, previous, action)),
    }
}

proof fn lemma_shadow_persists(
    primary: Seq<(Seq<char>, KeyBinding)>,
    es: Seq<(Seq<char>, KeyBinding)>,
    allowed: Seq<(Seq<char>, Seq<char>, KeyBinding)>,
    k: int,
)
    requires
        0 <= k <= es.len(),
        first_shadow(primary, es.take(k), allowed) is Some,
    ensures
        first_shadow(primary, es, allowed) == first_shadow(primary, es.take(k), allowed),
    decreases es.len() - k,
{
    if k < es.len() {
        assert(es.take(k + 1).drop_last() =~= es.take(k));
        lemma_shadow_persists(primary, es, allowed, k + 1);
    } else {
        assert(es.take(k) =~= es);
    }
}

fn is_allowed_shadow(
    allowed: &[(&str, &str, KeyBinding)],
    previous: &str,
    action: &str,
    b: KeyBinding,
) -> (r: bool)
    ensures
        r == allowed_shadow(allowed_view(allowed@), previous@, action@, b),
{
    let ghost av = allowed_view(allowed@);
    let key = b.normalized();
    let mut i: usize = 0;
    while i < allowed.len()
        invariant
            av == allowed_view(allowed@),
            key == crate::keys::normalized_key(b),
            0 <= i <= allowed@.len(),
            forall|j: int|
                0 <= j < i ==> !(#[trigger] av[j].0 == previous@ && av[j].1 == action@
                    && normalized_key(av[j].2) == normalized_key(b)),
        decreases allowed@.len() - i,
    {
        let (p, a, k) = allowed[i];
        if str_eq(p, previous) && str_eq(a, action) && k.normalized() == key {
            proof {
                assert(av[i as int].0 == previous@);
            }
            return true;
        }
        i = i + 1;
    }
    false
}

/// Whether two strings are equal.
pub fn str_eq(a: &str, b: &str) -> (r: bool)
    ensures
        r == (a@ == b@),
{
    let ac = crate::text::str_chars(a);
    let bc = crate::text::str_chars(b);
    if ac.len() != bc.len() {
        return false;
    }
    let mut i: usize = 0;
    while i < ac.len()
        invariant
            ac@ == a@,
            bc@ == b@,
            ac@.len() == bc@.len(),
            0 <= i <= ac@.len(),
            forall|j: int| 0 <= j < i ==> ac@[j] == bc@[j],
        decreases ac@.len() - i,
    {
        if ac[i] != bc[i] {
            return false;
        }
        i = i + 1;
    }
    proof {
        assert(a@ =~= b@);
    }
    true
}

/// Reject keys of `shadowed` actions that a `primary` handler always
/// consumes first, except for the listed intentional overlaps.
pub fn validate_no_shadow_with_allowed_overlaps(
    context: &str,
    primary: &[(&str, &[KeyBinding])],
    shadowed: &[(&str, &[KeyBinding])],
    allowed_overlaps: &[(&str, &str, KeyBinding)],
) -> (r: Result<(), String>)
    ensures
        check_matches(
            r,
            shadow_spec(
                context@,
                pairs_view(primary@),
                pairs_view(shadowed@),
                allowed_view(allowed_overlaps@),
            ),
        ),
{
    let ps = flatten_pairs(primary);
    let ss = flatten_pairs(shadowed);
    let ghost pv = ps@.map_values(|e: (&str, KeyBinding)| (e.0@, e.1));
    let ghost sv = ss@.map_values(|e: (&str, KeyBinding)| (e.0@, e.1));
    let ghost av = allowed_view(allowed_overlaps@);
    proof {
        assert(ps@.take(ps@.len() as int) =~= ps@);
        assert(sv.take(0) =~= Seq::<(Seq<char>, KeyBinding)>::empty());
    }
    let mut i: usize = 0;
    while i < ss.len()
        invariant
            pv == ps@.map_values(|e: (&str, KeyBinding)| (e.0@, e.1)),
            pv == ps@.take(ps@.len() as int).map_values(|e: (&str, KeyBinding)| (e.0@, e.1)),
            pv == flatten(pairs_view(primary@)),
            sv == ss@.map_values(|e: (&str, KeyBinding)| (e.0@, e.1)),
            sv == flatten(pairs_view(shadowed@)),
            av == allowed_view(allowed_overlaps@),
            0 <= i <= ss@.len(),
            first_shadow(pv, sv.take(i as int), av) is None,
        decreases ss@.len() - i,
    {
        let (action, b) = ss[i];
        proof {
            assert(sv.take(i + 1).drop_last() =~= sv.take(i as int));
            assert(sv.take(i + 1).last() == (action@, b));
        }
        match find_last_key(&ps, ps.len(), b) {
            Some(j) => {
                let previous = ps[j].0;
                proof {
                    assert(pv[j as int].0 == previous@);
                }
                if !is_allowed_shadow(allowed_overlaps, previous, action, b) {
                    proof {
                        lemma_shadow_persists(pv, sv, av, i + 1);
                    }
                    return Err(
                        message3(
                            "Ambiguous `tui.keymap.",
                            context,
                            "` bindings: `",
                            previous,
                            "` shadows `",
                            action,
                            "` with the same key. Set unique keys in `~/.codex/config.toml` and retry. See the Codex keymap documentation for supported actions and examples.",
                        ),
                    );
                }
            },
            None => {},
        }
        i = i + 1;
    }
    proof {
        assert(sv.take(ss@.len() as int) =~= sv);
    }
    Ok(())
}

/// The abstract form of reserved `(fixed action, key)` entries.
pub open spec fn reserved_view(reserved: Seq<(&str, KeyBinding)>) -> Seq<(Seq<char>, KeyBinding)> {
    reserved.map_values(|e: (&str, KeyBinding)| (e.0@, e.1))
}

/// The first reserved entry whose key is exactly `b`.
pub open spec fn first_reserved_for(reserved: Seq<(Seq<char>, KeyBinding)>, b: KeyBinding) -> Option<
    int,
>
    decreases reserved.len(),
{
    if reserved.len() == 0 {
        None
    } else {
        match first_reserved_for(reserved.drop_last(), b) {
            Some(i) => Some(i),
            None => if reserved.last().1 == b {
                Some(reserved.len() - 1)
            } else {
                None
            },
        }
    }
}

/// Whether `action` may use the key `b` that `reserved_action` reserves.
pub open spec fn allowed_reserved(
    allowed: Seq<(Seq<char>, Seq<char>, KeyBinding)>,
    action: Seq<char>,
    reserved_action: Seq<char>,
    b: KeyBinding,
) -> bool {
    exists|i: int|
        0 <= i < allowed.len() && #[trigger] allowed[i].0 == action && allowed[i].1
            == reserved_action && allowed[i].2 == b
}

/// The first entry that uses a reserved key, as `(action, fixed action)`.
pub open spec fn first_reserved_use(
    es: Seq<(Seq<char>, KeyBinding)>,
    reserved: Seq<(Seq<char>, KeyBinding)>,
    allowed: Seq<(Seq<char>, Seq<char>, KeyBinding)>,
) -> Option<(Seq<char>, Seq<char>)>
    decreases es.len(),
{
    if es.len() == 0 {
        None
    } else {
        match first_reserved_use(es.drop_last(), reserved, allowed) {
            Some(p) => Some(p),
            None => match first_reserved_for(reserved, es.last().1) {
                Some(i) => if allowed_reserved(allowed, es.last().0, reserved[i].0, es.last().1) {
                    None
                } else {
                    Some((es.last().0, reserved[i].0))
                },
                None => None,
            },
        }
    }
}

pub open spec fn reserved_spec(
    context: Seq<char>,
    pairs: Seq<(Seq<char>, Seq<KeyBinding>)>,
    reserved: Seq<(Seq<char>, KeyBinding)>,
    allowed: Seq<(Seq<char>, Seq<char>, KeyBinding)>,
) -> Result<(), Seq<char>> {
    match first_reserved_use(flatten(pairs), reserved, allowed) {
        None => Ok(()),
        Some((action, reserved_action)) => Err(reserved_message(context, action, reserved_action)),
    }
}

proof fn lemma_reserved_persists(
    es: Seq<(Seq<char>, KeyBinding)>,
    reserved: Seq<(Seq<char>, KeyBinding)>,
    allowed: Seq<(Seq<char>, Seq<char>, KeyBinding)>,
    k: int,
)
    requires
        0 <= k <= es.len(),
        first_reserved_use(es.take(k), reserved, allowed) is Some,
    ensures
        first_reserved_use(es, reserved, allowed) == first_reserved_use(es.take(k), reserved, allowed),
    decreases es.len() - k,
{
    if k < es.len() {
        assert(es.take(k + 1).drop_last() =~= es.take(k));
        lemma_reserved_persists(es, reserved, allowed, k + 1);
    } else {
        assert(es.take(k) =~= es);
    }
}

fn find_reserved(reserved: &[(&str, KeyBinding)], b: KeyBinding) -> (r: Option<usize>)
    ensures
        r matches Some(i) ==> i < reserved@.len(),
        match r {
            Some(i) => first_reserved_for(reserved_view(reserved@), b) == Some(i as int),
            None => first_reserved_for(reserved_view(reserved@), b) is None,
        },
{
    let ghost rv = reserved_view(reserved@);
    let mut i: usize = 0;
    proof {
        assert(rv.take(0) =~= Seq::<(Seq<char>, KeyBinding)>::empty());
    }
    while i < reserved.len()
        invariant
            rv == reserved_view(reserved@),
            0 <= i <= reserved@.len(),
            first_reserved_for(rv.take(i as int), b) is None,
        decreases reserved@.len() - i,
    {
        proof {
            assert(rv.take(i + 1).drop_last() =~= rv.take(i as int));
        }
        if reserved[i].1 == b {
            proof {
                lemma_first_reserved_stable(rv, b, i + 1);
            }
            return Some(i);
        }
        i = i + 1;
    }
    proof {
        assert(rv.take(reserved@.len() as int) =~= rv);
    }
    None
}

proof fn lemma_first_reserved_stable(reserved: Seq<(Seq<char>, KeyBinding)>, b: KeyBinding, k: int)
    requires
        0 <= k <= reserved.len(),
        first_reserved_for(reserved.take(k), b) is Some,
    ensures
        first_reserved_for(reserved, b) == first_reserved_for(reserved.take(k), b),
    decreases reserved.len() - k,
{
    if k < reserved.len() {
        assert(reserved.take(k + 1).drop_last() =~= reserved.take(k));
        lemma_first_reserved_stable(reserved, b, k + 1);
    } else {
        assert(reserved.take(k) =~= reserved);
    }
}

fn is_allowed_reserved(
    allowed: &[(&str, &str, KeyBinding)],
    action: &str,
    reserved_action: &str,
    b: KeyBinding,
) -> (r: bool)
    ensures
        r == allowed_reserved(allowed_view(allowed@), action@, reserved_action@, b),
{
    let ghost av = allowed_view(allowed@);
    let mut i: usize = 0;
    while i < allowed.len()
        invariant
            av == allowed_view(allowed@),
            0 <= i <= allowed@.len(),
            forall|j: int|
                0 <= j < i ==> !(#[trigger] av[j].0 == action@ && av[j].1 == reserved_action@
                    && av[j].2 == b),
        decreases allowed@.len() - i,
    {
        let (a, ra, k) = allowed[i];
        if str_eq(a, action) && str_eq(ra, reserved_action) && k == b {
            proof {
                assert(av[i as int].0 == action@);
            }
            return true;
        }
        i = i + 1;
    }
    false
}

/// Reject keys that a fixed, non-configurable shortcut already owns, except
/// for the listed intentional overlaps.
pub fn validate_no_reserved(
    context: &str,
    pairs: &[(&str, &[KeyBinding])],
    reserved: &[(&str, KeyBinding)],
    allowed_overlaps: &[(&str, &str, KeyBinding)],
) -> (r: Result<(), String>)
    ensures
        check_matches(
            r,
            reserved_spec(
                context@,
                pairs_view(pairs@),
                reserved_view(reserved@),
                allowed_view(allowed_overlaps@),
            ),
        ),
{
    let es = flatten_pairs(pairs);
    let ghost ev = es@.map_values(|e: (&str, KeyBinding)| (e.0@, e.1));
    let ghost rv = reserved_view(reserved@);
    let ghost av = allowed_view(allowed_overlaps@);
    let mut i: usize = 0;
    proof {
        assert(ev.take(0) =~= Seq::<(Seq<char>, KeyBinding)>::empty());
    }
    while i < es.len()
        invariant
            ev == es@.map_values(|e: (&str, KeyBinding)| (e.0@, e.1)),
            ev == flatten(pairs_view(pairs@)),
            rv == reserved_view(reserved@),
            av == allowed_view(allowed_overlaps@),
            0 <= i <= es@.len(),
            first_reserved_use(ev.take(i as int), rv, av) is None,
        decreases es@.len() - i,
    {
        let (action, b) = es[i];
        proof {
            assert(ev.take(i + 1).drop_last() =~= ev.take(i as int));
            assert(ev.take(i + 1).last() == (action@, b));
        }
        match find_reserved(reserved, b) {
            Some(j) => {
                let reserved_action = reserved[j].0;
                proof {
                    assert(rv[j as int].0 == reserved_action@);
                }
                if !is_allowed_reserved(allowed_overlaps, action, reserved_action, b) {
                    proof {
                        lemma_reserved_persists(ev, rv, av, i + 1);
                    }
                    return Err(
                        message3(
                            "Ambiguous `tui.keymap.",
                            context,
                            "` bindings: `",
                            action,
                            "` uses a key reserved by `",
                            reserved_action,
                            "`. Set a different key in `~/.codex/config.toml` and retry. See the Codex keymap documentation for supported actions and examples.",
                        ),
                    );
                }
            },
            None => {},
        }
        i = i + 1;
    }
    proof {
        assert(ev.take(es@.len() as int) =~= ev);
    }
    Ok(())
}

/// The first conflict in the approval overlay, where list and approval
/// actions share one input path. A list cancel on Esc may coexist with an
/// approval decline on Esc.
pub open spec fn first_overlay_conflict(es: Seq<(Seq<char>, KeyBinding)>) -> Option<
    (Seq<char>, Seq<char>),
>
    decreases es.len(),
{
    if es.len() == 0 {
        None
    } else {
        match first_overlay_conflict(es.drop_last()) {
            Some(p) => Some(p),
            None => match last_with_key(es.drop_last(), es.last().1) {
                Some(i) => if es[i].0 == "list.cancel"@ && es.last().0 == "approval.decline"@
                    && normalized_key(es.last().1) == crate::keys::binding_of(
                    KeyCode::Esc,
                    crate::keys::no_modifiers(),
                ) {
                    None
                } else {
                    Some((es[i].0, es.last().0))
                },
                None => None,
            },
        }
    }
}

pub open spec fn overlay_spec(pairs: Seq<(Seq<char>, Seq<KeyBinding>)>) -> Result<(), Seq<char>> {
    match first_overlay_conflict(flatten(pairs)) {
        None => Ok(()),
        Some((previous, action)) => Err(overlay_message(previous, action)),
    }
}

proof fn lemma_overlay_persists(es: Seq<(Seq<char>, KeyBinding)>, k: int)
    requires
        0 <= k <= es.len(),
        first_overlay_conflict(es.take(k)) is Some,
    ensures
        first_overlay_conflict(es) == first_overlay_conflict(es.take(k)),
    decreases es.len() - k,
{
    if k < es.len() {
        assert(es.take(k + 1).drop_last() =~= es.take(k));
        lemma_overlay_persists(es, k + 1);
    } else {
        assert(es.take(k) =~= es);
    }
}

/// Reject keys shared by two list or approval actions in the approval overlay.
pub fn validate_approval_overlay(pairs: &[(&str, &[KeyBinding])]) -> (r: Result<(), String>)
    ensures
        check_matches(r, overlay_spec(pairs_view(pairs@))),
{
    let es = flatten_pairs(pairs);
    let ghost ev = es@.map_values(|e: (&str, KeyBinding)| (e.0@, e.1));
    let esc = plain(KeyCode::Esc);
    let mut i: usize = 0;
    proof {
        assert(ev.take(0) =~= Seq::<(Seq<char>, KeyBinding)>::empty());
    }
    while i < es.len()
        invariant
            ev == es@.map_values(|e: (&str, KeyBinding)| (e.0@, e.1)),
            ev == flatten(pairs_view(pairs@)),
            esc == crate::keys::binding_of(KeyCode::Esc, crate::keys::no_modifiers()),
            0 <= i <= es@.len(),
            first_overlay_conflict(ev.take(i as int)) is None,
        decreases es@.len() - i,
    {
        let (action, b) = es[i];
        proof {
            assert(ev.take(i + 1).drop_last() =~= ev.take(i as int));
            assert(ev.take(i as int) =~= es@.take(i as int).map_values(
                |e: (&str, KeyBinding)| (e.0@, e.1),
            ));
            assert(ev.take(i + 1).last() == (action@, b));
        }
        match find_last_key(&es, i, b) {
            Some(j) => {
                let previous = es[j].0;
                proof {
                    assert(ev.take(i as int)[j as int].0 == previous@);
                }
                let allowed = str_eq(previous, "list.cancel") && str_eq(action, "approval.decline")
                    && b.normalized() == esc;
                if !allowed {
                    proof {
                        lemma_overlay_persists(ev, i + 1);
                    }
                    return Err(
                        message5(
                            "Ambiguous approval overlay keymap bindings: `",
                            previous,
                            "` and `",
                            action,
                            "` use the same key. Set unique keys in `~/.codex/config.toml` and retry. See the Codex keymap documentation for supported actions and examples.",
                        ),
                    );
                }
            },
            None => {},
        }
        i = i + 1;
    }
    proof {
        assert(ev.take(es@.len() as int) =~= ev);
    }
    Ok(())
}

} // verus!

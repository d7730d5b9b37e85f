//! Configured binding values (`"ctrl-a"` or `["ctrl-a", "f2"]`) and their
//! resolution against built-in defaults.

use vstd::prelude::*;
use vstd::string::*;
use crate::keys::{KeyBinding, normalized_key};
use crate::parse::{parse_keybinding, parse_keybinding_spec};
use crate::text::str_contains_char;

verus! {

/// One configured key spec string.
#[derive(Clone, Debug, PartialEq, Eq)]
pub struct KeybindingSpec(pub String);

/// A configured value: one spec or a list of specs. An empty list unbinds.
#[derive(Clone, Debug, PartialEq, Eq)]
pub enum KeybindingsSpec {
    One(KeybindingSpec),
    Many(Vec<KeybindingSpec>),
}

impl KeybindingsSpec {
    /// The configured spec strings, in order.
    pub open spec fn raws(&self) -> Seq<Seq<char>> {
        match self {
            KeybindingsSpec::One(s) => seq![s.0@],
            KeybindingsSpec::Many(v) => v@.map_values(|s: KeybindingSpec| s.0@),
        }
    }
}

/// Whether some binding of `acc` denotes the same key as `b`.
pub open spec fn contains_key(acc: Seq<KeyBinding>, b: KeyBinding) -> bool {
    exists|i: int| 0 <= i < acc.len() && normalized_key(#[trigger] acc[i]) == normalized_key(b)
}

/// One parsing step: chord specs (with a space) are left to the chord
/// resolver, invalid specs fail, and repeated keys keep their first position.
pub open spec fn parse_step(acc: Seq<KeyBinding>, raw: Seq<char>) -> Option<Seq<KeyBinding>> {
    if raw.contains(' ') {
        Some(acc)
    } else {
        match parse_keybinding_spec(raw) {
            None => None,
            Some(b) => Some(
                if contains_key(acc, b) {
                    acc
                } else {
                    acc.push(b)
                },
            ),
        }
    }
}

/// The bindings a list of specs denotes, or the first spec that is invalid.
pub open spec fn parse_raws(raws: Seq<Seq<char>>) -> Result<Seq<KeyBinding>, Seq<char>>
    decreases raws.len(),
{
    if raws.len() == 0 {
        Ok(Seq::empty())
    } else {
        match parse_raws(raws.drop_last()) {
            Err(raw) => Err(raw),
            Ok(acc) => match parse_step(acc, raws.last()) {
                None => Err(raws.last()),
                Some(next) => Ok(next),
            },
        }
    }
}

/// The message reported for an invalid spec at a config path.
pub open spec fn invalid_binding_message(path: Seq<char>, raw: Seq<char>) -> Seq<char> {
    "Invalid `"@ + path + "` = `"@ + raw
        + "`. Use values like `ctrl-a`, `shift-enter`, or `page-down`. See the Codex keymap documentation for supported actions and examples."@
}

/// Whether an executable result agrees with a spec result, with invalid
/// specs reported at `path`.
pub open spec fn result_matches(
    r: Result<Vec<KeyBinding>, String>,
    expected: Result<Seq<KeyBinding>, Seq<char>>,
    path: Seq<char>,
) -> bool {
    match (r, expected) {
        (Ok(v), Ok(e)) => v@ == e,
        (Err(m), Err(raw)) => m@ == invalid_binding_message(path, raw),
        _ => false,
    }
}

/// Context value, then built-in fallback.
pub open spec fn resolve_spec(configured: Option<KeybindingsSpec>, fallback: Seq<KeyBinding>) -> Result<
    Seq<KeyBinding>,
    Seq<char>,
> {
    match configured {
        None => Ok(fallback),
        Some(spec) => parse_raws(spec.raws()),
    }
}

/// Context value, then global value, then built-in fallback.
pub open spec fn resolve_global_spec(
    configured: Option<KeybindingsSpec>,
    global: Option<KeybindingsSpec>,
    fallback: Seq<KeyBinding>,
) -> Result<Seq<KeyBinding>, Seq<char>> {
    match configured {
        Some(spec) => parse_raws(spec.raws()),
        None => match global {
            Some(spec) => parse_raws(spec.raws()),
            None => Ok(fallback),
        },
    }
}

/// Context value, then the built-in fallback without the keys that other
/// configured actions already claim.
pub open spec fn resolve_new_default_spec(
    configured: Option<KeybindingsSpec>,
    fallback: Seq<KeyBinding>,
    preserve: Seq<KeyBinding>,
) -> Result<Seq<KeyBinding>, Seq<char>> {
    match configured {
        None => Ok(without(fallback, preserve)),
        Some(spec) => parse_raws(spec.raws()),
    }
}

/// The keys a value resolves to when it parses: the configured keys, or the
/// fallback when nothing is configured.
pub open spec fn resolved_or(configured: Option<KeybindingsSpec>, fallback: Seq<KeyBinding>) -> Seq<
    KeyBinding,
> {
    match resolve_spec(configured, fallback) {
        Ok(v) => v,
        Err(_) => fallback,
    }
}

/// The keys an action with global fallback resolves to when its value parses.
pub open spec fn global_resolved_or(
    configured: Option<KeybindingsSpec>,
    global: Option<KeybindingsSpec>,
    fallback: Seq<KeyBinding>,
) -> Seq<KeyBinding> {
    match resolve_global_spec(configured, global, fallback) {
        Ok(v) => v,
        Err(_) => fallback,
    }
}

/// The error reported for a configured value that does not parse, at `path`.
pub open spec fn value_error(configured: Option<KeybindingsSpec>, path: Seq<char>) -> Option<
    Seq<char>,
> {
    match configured {
        None => None,
        Some(spec) => match parse_raws(spec.raws()) {
            Ok(_) => None,
            Err(raw) => Some(invalid_binding_message(path, raw)),
        },
    }
}

/// The error reported for an action with global fallback: the context value
/// when it is set, else the global one, reported at the context path.
pub open spec fn global_value_error(
    configured: Option<KeybindingsSpec>,
    global: Option<KeybindingsSpec>,
    path: Seq<char>,
) -> Option<Seq<char>> {
    match configured {
        Some(_) => value_error(configured, path),
        None => value_error(global, path),
    }
}

/// The bindings of `s` that `removed` does not hold, in order.
pub open spec fn without(s: Seq<KeyBinding>, removed: Seq<KeyBinding>) -> Seq<KeyBinding> {
    s.filter(|b: KeyBinding| !removed.contains(b))
}

/// Whether no two bindings of `s` are for the same key.
pub open spec fn distinct_keys(s: Seq<KeyBinding>) -> bool {
    forall|i: int, j: int|
        0 <= i < j < s.len() ==> normalized_key(#[trigger] s[i]) != normalized_key(#[trigger] s[j])
}

/// A parsed value never holds two bindings for the same key: repeated keys
/// keep only their first position.
pub proof fn lemma_parsed_keys_distinct(raws: Seq<Seq<char>>)
    ensures
        parse_raws(raws) matches Ok(v) ==> distinct_keys(v),
    decreases raws.len(),
{
    if raws.len() > 0 {
        lemma_parsed_keys_distinct(raws.drop_last());
        match parse_raws(raws.drop_last()) {
            Ok(acc) => {
                match parse_step(acc, raws.last()) {
                    Some(next) => {
                        if next != acc {
                            assert forall|i: int, j: int| 0 <= i < j < next.len() implies normalized_key(
                                #[trigger] next[i],
                            ) != normalized_key(#[trigger] next[j]) by {
                                if j == next.len() - 1 {
                                    assert(next[i] == acc[i]);
                                }
                            }
                        }
                    },
                    None => {},
                }
            },
            Err(_) => {},
        }
    }
}

/// Whether the spec at position `i` is a single-key spec that does not parse.
pub open spec fn fails_at(raws: Seq<Seq<char>>, i: int) -> bool {
    !raws[i].contains(' ') && parse_keybinding_spec(raws[i]) is None
}

/// What a value of specs parses to, with chord specs (those with a space)
/// set aside: it fails exactly when some single-key spec does not parse, and
/// then names the first such spec; otherwise each binding it keeps is what
/// some single-key spec parses to, and the key of every single-key spec is
/// among them.
pub proof fn lemma_parse_raws_sources(raws: Seq<Seq<char>>)
    ensures
        parse_raws(raws) is Err <==> exists|i: int| 0 <= i < raws.len() && #[trigger] fails_at(raws, i),
        parse_raws(raws) matches Err(raw) ==> exists|i: int|
            0 <= i < raws.len() && #[trigger] fails_at(raws, i) && raws[i] == raw && forall|j: int|
                0 <= j < i ==> !#[trigger] fails_at(raws, j),
        parse_raws(raws) matches Ok(v) ==> forall|k: int|
            0 <= k < v.len() ==> exists|i: int|
                #![trigger raws[i]]
                0 <= i < raws.len() && !raws[i].contains(' ') && parse_keybinding_spec(raws[i]) == Some(
                    #[trigger] v[k],
                ),
        parse_raws(raws) matches Ok(v) ==> forall|i: int|
            0 <= i < raws.len() && !raws[i].contains(' ') ==> #[trigger] contains_key(
                v,
                parse_keybinding_spec(raws[i])->0,
            ),
    decreases raws.len(),
{
    if raws.len() > 0 {
        let d = raws.drop_last();
        let n = raws.len() - 1;
        lemma_parse_raws_sources(d);
        assert forall|i: int| 0 <= i < d.len() implies #[trigger] d[i] == raws[i] by {}
        assert forall|i: int| 0 <= i < d.len() implies fails_at(d, i) == #[trigger] fails_at(raws, i) by {
            assert(d[i] == raws[i]);
        }
        assert(raws[n] == raws.last());
        match parse_raws(d) {
            Err(raw) => {
                let i = choose|i: int|
                    0 <= i < d.len() && #[trigger] fails_at(d, i) && d[i] == raw && forall|j: int|
                        0 <= j < i ==> !#[trigger] fails_at(d, j);
                assert(fails_at(raws, i));
                assert forall|j: int| 0 <= j < i implies !#[trigger] fails_at(raws, j) by {
                    assert(!fails_at(d, j));
                }
            },
            Ok(acc) => {
                assert forall|i: int| 0 <= i < d.len() implies !#[trigger] fails_at(raws, i) by {
                    assert(!fails_at(d, i));
                }
                match parse_step(acc, raws.last()) {
                    None => {
                        assert(fails_at(raws, n));
                    },
                    Some(next) => {
                        assert forall|i: int| 0 <= i < raws.len() implies !#[trigger] fails_at(raws, i) by {
                            if i < n {
                                assert(!fails_at(d, i));
                            }
                        }
                        assert forall|k: int| 0 <= k < next.len() implies exists|i: int|
                            #![trigger raws[i]]
                            0 <= i < raws.len() && !raws[i].contains(' ') && parse_keybinding_spec(raws[i])
                                == Some(#[trigger] next[k]) by {
                            if k < acc.len() {
                                assert(next[k] == acc[k]);
                                let i = choose|i: int|
                                    #![trigger d[i]]
                                    0 <= i < d.len() && !d[i].contains(' ') && parse_keybinding_spec(d[i])
                                        == Some(acc[k]);
                                assert(raws[i] == d[i]);
                            } else {
                                assert(raws[n] == raws.last());
                            }
                        }
                        assert forall|i: int| 0 <= i < raws.len() && !raws[i].contains(' ') implies #[trigger] contains_key(
                            next,
                            parse_keybinding_spec(raws[i])->0,
                        ) by {
                            let b = parse_keybinding_spec(raws[i])->0;
                            if i < n {
                                assert(d[i] == raws[i]);
                                assert(contains_key(acc, b));
                                let k = choose|k: int| 0 <= k < acc.len() && normalized_key(#[trigger] acc[k])
                                    == normalized_key(b);
                                assert(next[k] == acc[k]);
                            } else {
                                if !contains_key(acc, b) {
                                    assert(next[acc.len() as int] == b);
                                }
                            }
                        }
                        assert(parse_raws(raws) == Ok::<Seq<KeyBinding>, Seq<char>>(next));
                    },
                }
            },
        }
    }
}

/// Removing no keys keeps every key.
pub proof fn lemma_without_nothing(s: Seq<KeyBinding>)
    ensures
        without(s, Seq::empty()) == s,
    decreases s.len(),
{
    reveal_with_fuel(Seq::filter, 1);
    if s.len() > 0 {
        lemma_without_nothing(s.drop_last());
        assert(s.drop_last().push(s.last()) =~= s);
    } else {
        assert(without(s, Seq::empty()) =~= s);
    }
}

fn invalid_message(path: &str, raw: &str) -> (m: String)
    ensures
        m@ == invalid_binding_message(path@, raw@),
{
    let mut m = String::new();
    m.append("Invalid `");
    m.append(path);
    m.append("` = `");
    m.append(raw);
    m.append(
        "`. Use values like `ctrl-a`, `shift-enter`, or `page-down`. See the Codex keymap documentation for supported actions and examples.",
    );
    m
}

/// Whether `parsed` already holds a binding for the same key as `b`.
pub fn has_key(parsed: &Vec<KeyBinding>, b: KeyBinding) -> (r: bool)
    ensures
        r == contains_key(parsed@, b),
{
    let mut i: usize = 0;
    while i < parsed.len()
        invariant
            0 <= i <= parsed@.len(),
            forall|j: int| 0 <= j < i ==> normalized_key(#[trigger] parsed@[j]) != normalized_key(b),
        decreases parsed@.len() - i,
    {
        if parsed[i].normalized() == b.normalized() {
            return true;
        }
        i = i + 1;
    }
    false
}

/// Apply one parsing step to `parsed`; `false` when `raw` is invalid.
fn push_raw(parsed: &mut Vec<KeyBinding>, raw: &str) -> (ok: bool)
    ensures
        ok == (parse_step(old(parsed)@, raw@) is Some),
        ok ==> Some(final(parsed)@) == parse_step(old(parsed)@, raw@),
{
    if str_contains_char(raw, ' ') {
        return true;
    }
    match parse_keybinding(raw) {
        None => false,
        Some(b) => {
            if !has_key(parsed, b) {
                parsed.push(b);
            }
            true
        },
    }
}

/// Parse one configured value into bindings, de-duplicating repeated keys
/// while keeping first-seen order so the first key stays the primary hint.
pub fn parse_bindings(spec: &KeybindingsSpec, path: &str) -> (r: Result<Vec<KeyBinding>, String>)
    ensures
        result_matches(r, parse_raws(spec.raws()), path@),
{
    let mut parsed: Vec<KeyBinding> = Vec::new();
    match spec {
        KeybindingsSpec::One(one) => {
            let raw = one.0.as_str();
            proof {
                assert(spec.raws().drop_last() =~= Seq::<Seq<char>>::empty());
                assert(parse_raws(spec.raws().drop_last()) == Ok::<Seq<KeyBinding>, Seq<char>>(
                    Seq::empty(),
                ));
                assert(spec.raws().last() == raw@);
                assert(parsed@ =~= Seq::<KeyBinding>::empty());
            }
            if push_raw(&mut parsed, raw) {
                Ok(parsed)
            } else {
                Err(invalid_message(path, raw))
            }
        },
        KeybindingsSpec::Many(list) => {
            let ghost raws = spec.raws();
            let mut i: usize = 0;
            proof {
                assert(raws.take(0) =~= Seq::<Seq<char>>::empty());
            }
            while i < list.len()
                invariant
                    raws == list@.map_values(|s: KeybindingSpec| s.0@),
                    raws == spec.raws(),
                    0 <= i <= list@.len(),
                    parse_raws(raws.take(i as int)) == Ok::<Seq<KeyBinding>, Seq<char>>(parsed@),
                decreases list@.len() - i,
            {
                let raw = list[i].0.as_str();
                proof {
                    assert(raws.take(i + 1).drop_last() =~= raws.take(i as int));
                    assert(raws.take(i + 1).last() == raw@);
                }
                if !push_raw(&mut parsed, raw) {
                    proof {
                        assert(parse_raws(raws.take(i + 1)) == Err::<Seq<KeyBinding>, Seq<char>>(
                            raw@,
                        ));
                        lemma_parse_raws_error_persists(raws, (i + 1) as int);
                    }
                    return Err(invalid_message(path, raw));
                }
                i = i + 1;
            }
            proof {
                assert(raws.take(list@.len() as int) =~= raws);
            }
            Ok(parsed)
        },
    }
}

/// Once a prefix of the specs fails, the whole list fails with the same spec.
proof fn lemma_parse_raws_error_persists(raws: Seq<Seq<char>>, k: int)
    requires
        0 <= k <= raws.len(),
        parse_raws(raws.take(k)) is Err,
    ensures
        parse_raws(raws) == parse_raws(raws.take(k)),
    decreases raws.len() - k,
{
    if k < raws.len() {
        assert(raws.take(k + 1).drop_last() =~= raws.take(k));
        lemma_parse_raws_error_persists(raws, k + 1);
    } else {
        assert(raws.take(k) =~= raws);
    }
}

/// A copy of `bindings`.
pub fn copy_bindings(bindings: &[KeyBinding]) -> (r: Vec<KeyBinding>)
    ensures
        r@ == bindings@,
{
    let mut r: Vec<KeyBinding> = Vec::new();
    let mut i: usize = 0;
    while i < bindings.len()
        invariant
            0 <= i <= bindings@.len(),
            r@ == bindings@.take(i as int),
        decreases bindings@.len() - i,
    {
        r.push(bindings[i]);
        proof {
            assert(bindings@.take(i as int).push(bindings@[i as int]) =~= bindings@.take(i + 1));
        }
        i = i + 1;
    }
    proof {
        assert(bindings@.take(bindings@.len() as int) =~= bindings@);
    }
    r
}

/// Resolve one action in a context without global fallback: a configured
/// value, including an empty list, replaces the built-in fallback.
pub fn resolve_bindings(
    configured: &Option<KeybindingsSpec>,
    fallback: &[KeyBinding],
    path: &str,
) -> (r: Result<Vec<KeyBinding>, String>)
    ensures
        result_matches(r, resolve_spec(*configured, fallback@), path@),
        match r {
            Ok(v) => value_error(*configured, path@) is None && v@ == resolved_or(*configured, fallback@),
            Err(e) => value_error(*configured, path@) == Some(e@),
        },
{
    match configured {
        None => Ok(copy_bindings(fallback)),
        Some(spec) => parse_bindings(spec, path),
    }
}

/// Resolve one action with context, global, then default precedence.
pub fn resolve_bindings_with_global_fallback(
    configured: &Option<KeybindingsSpec>,
    global: &Option<KeybindingsSpec>,
    fallback: &[KeyBinding],
    path: &str,
) -> (r: Result<Vec<KeyBinding>, String>)
    ensures
        result_matches(r, resolve_global_spec(*configured, *global, fallback@), path@),
        match r {
            Ok(v) => global_value_error(*configured, *global, path@) is None && v@
                == global_resolved_or(*configured, *global, fallback@),
            Err(e) => global_value_error(*configured, *global, path@) == Some(e@),
        },
{
    match configured {
        Some(spec) => parse_bindings(spec, path),
        None => match global {
            Some(spec) => parse_bindings(spec, path),
            None => Ok(copy_bindings(fallback)),
        },
    }
}

/// Whether `b` occurs in `list`.
pub fn contains_binding(list: &[KeyBinding], b: KeyBinding) -> (r: bool)
    ensures
        r == list@.contains(b),
{
    let mut i: usize = 0;
    while i < list.len()
        invariant
            0 <= i <= list@.len(),
            forall|j: int| 0 <= j < i ==> list@[j] != b,
        decreases list@.len() - i,
    {
        if list[i] == b {
            proof {
                assert(list@[i as int] == b);
            }
            return true;
        }
        i = i + 1;
    }
    false
}

/// The bindings of `s` that `removed` does not hold, in order.
pub fn retain_without(s: &[KeyBinding], removed: &[KeyBinding]) -> (r: Vec<KeyBinding>)
    ensures
        r@ == without(s@, removed@),
{
    let mut r: Vec<KeyBinding> = Vec::new();
    let mut i: usize = 0;
    while i < s.len()
        invariant
            0 <= i <= s@.len(),
            r@ == without(s@.take(i as int), removed@),
        decreases s@.len() - i,
    {
        let b = s[i];
        proof {
            assert(s@.take(i + 1).drop_last() =~= s@.take(i as int));
            reveal_with_fuel(Seq::filter, 1);
        }
        if !contains_binding(removed, b) {
            r.push(b);
        }
        i = i + 1;
    }
    proof {
        assert(s@.take(s@.len() as int) =~= s@);
    }
    r
}

/// Resolve an action whose built-in keys were added after other actions
/// could already be configured: those configured keys win.
pub fn resolve_new_default_bindings(
    configured: &Option<KeybindingsSpec>,
    fallback: &[KeyBinding],
    configured_bindings_to_preserve: &[KeyBinding],
    path: &str,
) -> (r: Result<Vec<KeyBinding>, String>)
    ensures
        result_matches(
            r,
            resolve_new_default_spec(*configured, fallback@, configured_bindings_to_preserve@),
            path@,
        ),
        match r {
            Ok(v) => value_error(*configured, path@) is None && v@ == (if *configured is None {
                without(fallback@, configured_bindings_to_preserve@)
            } else {
                resolved_or(*configured, fallback@)
            }),
            Err(e) => value_error(*configured, path@) == Some(e@),
        },
{
    match configured {
        None => Ok(retain_without(fallback, configured_bindings_to_preserve)),
        Some(spec) => parse_bindings(spec, path),
    }
}

/// `acc` with `b` appended unless it already holds it.
pub open spec fn push_unique(acc: Seq<KeyBinding>, b: KeyBinding) -> Seq<KeyBinding> {
    if acc.contains(b) {
        acc
    } else {
        acc.push(b)
    }
}

/// `acc` extended with the bindings of `bs` it does not hold yet, in order.
pub open spec fn extend_unique(acc: Seq<KeyBinding>, bs: Seq<KeyBinding>) -> Seq<KeyBinding>
    decreases bs.len(),
{
    if bs.len() == 0 {
        acc
    } else {
        push_unique(extend_unique(acc, bs.drop_last()), bs.last())
    }
}

/// `acc` extended with the keys of one action when the user configured it.
#[verifier::opaque]
pub open spec fn claim(acc: Seq<KeyBinding>, configured: bool, keys: Seq<KeyBinding>) -> Seq<KeyBinding> {
    if configured {
        extend_unique(acc, keys)
    } else {
        acc
    }
}

/// The keys of the explicitly configured actions among `pairs`, each once,
/// in first-seen order.
pub open spec fn preserved_keys(pairs: Seq<(bool, Seq<KeyBinding>)>) -> Seq<KeyBinding>
    decreases pairs.len(),
{
    if pairs.len() == 0 {
        Seq::empty()
    } else {
        claim(preserved_keys(pairs.drop_last()), pairs.last().0, pairs.last().1)
    }
}

proof fn lemma_extend_unique_covers(acc: Seq<KeyBinding>, bs: Seq<KeyBinding>)
    ensures
        forall|b: KeyBinding| acc.contains(b) ==> #[trigger] extend_unique(acc, bs).contains(b),
        forall|i: int| 0 <= i < bs.len() ==> extend_unique(acc, bs).contains(#[trigger] bs[i]),
    decreases bs.len(),
{
    if bs.len() > 0 {
        let d = bs.drop_last();
        lemma_extend_unique_covers(acc, d);
        let e = extend_unique(acc, d);
        assert forall|b: KeyBinding| e.contains(b) implies #[trigger] push_unique(e, bs.last()).contains(b) by {
            if !e.contains(bs.last()) {
                let j = choose|j: int| 0 <= j < e.len() && e[j] == b;
                assert(e.push(bs.last())[j] == b);
            }
        }
        assert forall|i: int| 0 <= i < bs.len() implies push_unique(e, bs.last()).contains(#[trigger] bs[i]) by {
            if i < d.len() {
                assert(d[i] == bs[i]);
                assert(e.contains(d[i]));
            } else if !e.contains(bs.last()) {
                assert(e.push(bs.last())[e.len() as int] == bs.last());
            }
        }
    }
}

/// Claims only grow: what `acc` claimed stays claimed, and the keys of a
/// configured action are claimed after it.
pub proof fn lemma_claim_covers(acc: Seq<KeyBinding>, configured: bool, keys: Seq<KeyBinding>)
    ensures
        forall|b: KeyBinding| acc.contains(b) ==> #[trigger] claim(acc, configured, keys).contains(b),
        configured ==> forall|i: int| 0 <= i < keys.len() ==> claim(acc, configured, keys).contains(#[trigger] keys[i]),
{
    reveal(claim);
    lemma_extend_unique_covers(acc, keys);
}

fn extend_unique_exec(acc: &mut Vec<KeyBinding>, bs: &[KeyBinding])
    ensures
        final(acc)@ == extend_unique(old(acc)@, bs@),
{
    let ghost start = acc@;
    let mut i: usize = 0;
    proof {
        assert(bs@.take(0) =~= Seq::<KeyBinding>::empty());
    }
    while i < bs.len()
        invariant
            0 <= i <= bs@.len(),
            acc@ == extend_unique(start, bs@.take(i as int)),
        decreases bs@.len() - i,
    {
        proof {
            assert(bs@.take(i + 1).drop_last() =~= bs@.take(i as int));
        }
        if !contains_binding(acc.as_slice(), bs[i]) {
            acc.push(bs[i]);
        }
        i = i + 1;
    }
    proof {
        assert(bs@.take(bs@.len() as int) =~= bs@);
    }
}

/// Add the keys of one action to `acc`, each once, when the user configured
/// the action.
pub fn claim_keys(acc: &mut Vec<KeyBinding>, configured: bool, keys: &[KeyBinding])
    ensures
        final(acc)@ == claim(old(acc)@, configured, keys@),
{
    proof {
        reveal(claim);
    }
    if configured {
        extend_unique_exec(acc, keys);
    }
}

/// `acc` with the keys of one action added, each once, when the user
/// configured the action.
pub fn claimed_with(acc: Vec<KeyBinding>, configured: &Option<KeybindingsSpec>, keys: &[KeyBinding]) -> (r: Vec<KeyBinding>)
    ensures
        r@ == claim(acc@, *configured is Some, keys@),
{
    let mut acc = acc;
    claim_keys(&mut acc, configured.is_some(), keys);
    acc
}

/// `acc` with the keys of one action added, each once, when the user
/// configured the action in either of two places.
pub fn claimed_with_either(
    acc: Vec<KeyBinding>,
    configured: &Option<KeybindingsSpec>,
    fallback: &Option<KeybindingsSpec>,
    keys: &[KeyBinding],
) -> (r: Vec<KeyBinding>)
    ensures
        r@ == claim(acc@, *configured is Some || *fallback is Some, keys@),
{
    let mut acc = acc;
    claim_keys(&mut acc, configured.is_some() || fallback.is_some(), keys);
    acc
}

/// Collect, each once and in order, the keys of actions that the user
/// configured explicitly (`pairs` holds whether each action was configured
/// and its resolved keys).
pub fn configured_bindings_to_preserve(pairs: &[(bool, &[KeyBinding])]) -> (r: Vec<KeyBinding>)
    ensures
        r@ == preserved_keys(pairs@.map_values(|p: (bool, &[KeyBinding])| (p.0, p.1@))),
{
    let ghost view = pairs@.map_values(|p: (bool, &[KeyBinding])| (p.0, p.1@));
    let mut acc: Vec<KeyBinding> = Vec::new();
    let mut i: usize = 0;
    proof {
        assert(view.take(0) =~= Seq::<(bool, Seq<KeyBinding>)>::empty());
    }
    while i < pairs.len()
        invariant
            view == pairs@.map_values(|p: (bool, &[KeyBinding])| (p.0, p.1@)),
            0 <= i <= pairs@.len(),
            acc@ == preserved_keys(view.take(i as int)),
        decreases pairs@.len() - i,
    {
        proof {
            assert(view.take(i + 1).drop_last() =~= view.take(i as int));
        }
        let (configured, resolved) = pairs[i];
        claim_keys(&mut acc, configured, resolved);
        i = i + 1;
    }
    proof {
        assert(view.take(pairs@.len() as int) =~= view);
    }
    acc
}

} // verus!

//! Parsing of key specs such as `ctrl-a`, `shift-enter` or `f12`.

use vstd::prelude::*;
use vstd::string::*;
use crate::keys::{KeyBinding, KeyCode, KeyModifiers, binding_of, no_modifiers};
use crate::text::{has_prefix_at, rest_equals, str_chars};

verus! {

/// The largest function key a spec may name.
pub const MAX_FUNCTION_KEY: u8 = 24;

pub open spec fn is_ascii_digit(c: char) -> bool {
    '0' <= c <= '9'
}

/// Numeric value of a string of ASCII digits.
pub open spec fn digits_value(d: Seq<char>) -> int
    decreases d.len(),
{
    if d.len() == 0 {
        0
    } else {
        digits_value(d.drop_last()) * 10 + (d.last() as int - '0' as int)
    }
}

pub open spec fn all_ascii_digits(d: Seq<char>) -> bool {
    forall|i: int| 0 <= i < d.len() ==> is_ascii_digit(#[trigger] d[i])
}

/// The digits of an unsigned number spec, after an optional leading `+`.
pub open spec fn unsigned_digits(s: Seq<char>) -> Seq<char> {
    if s.len() >= 1 && s[0] == '+' {
        s.skip(1)
    } else {
        s
    }
}

/// The value `u8::from_str` gives for `s`: an optional `+` sign followed by at
/// least one ASCII digit, with a value that fits in a byte.
pub open spec fn parse_u8_spec(s: Seq<char>) -> Option<u8> {
    let digits = unsigned_digits(s);
    if digits.len() == 0 || !all_ascii_digits(digits) {
        None
    } else if digits_value(digits) <= 255 {
        Some(digits_value(digits) as u8)
    } else {
        None
    }
}

/// The key a key name denotes: a named key, a single ASCII character, or a
/// function key `f1` to `f24`.
pub open spec fn parse_key_name(name: Seq<char>) -> Option<KeyCode> {
    if name == seq!['e', 'n', 't', 'e', 'r'] {
        Some(KeyCode::Enter)
    } else if name == seq!['t', 'a', 'b'] {
        Some(KeyCode::Tab)
    } else if name == seq!['b', 'a', 'c', 'k', 's', 'p', 'a', 'c', 'e'] {
        Some(KeyCode::Backspace)
    } else if name == seq!['e', 's', 'c'] {
        Some(KeyCode::Esc)
    } else if name == seq!['d', 'e', 'l', 'e', 't', 'e'] {
        Some(KeyCode::Delete)
    } else if name == seq!['u', 'p'] {
        Some(KeyCode::Up)
    } else if name == seq!['d', 'o', 'w', 'n'] {
        Some(KeyCode::Down)
    } else if name == seq!['l', 'e', 'f', 't'] {
        Some(KeyCode::Left)
    } else if name == seq!['r', 'i', 'g', 'h', 't'] {
        Some(KeyCode::Right)
    } else if name == seq!['h', 'o', 'm', 'e'] {
        Some(KeyCode::Home)
    } else if name == seq!['e', 'n', 'd'] {
        Some(KeyCode::End)
    } else if name == seq!['p', 'a', 'g', 'e', '-', 'u', 'p'] {
        Some(KeyCode::PageUp)
    } else if name == seq!['p', 'a', 'g', 'e', '-', 'd', 'o', 'w', 'n'] {
        Some(KeyCode::PageDown)
    } else if name == seq!['s', 'p', 'a', 'c', 'e'] {
        Some(KeyCode::Char(' '))
    } else if name == seq!['m', 'i', 'n', 'u', 's'] {
        Some(KeyCode::Char('-'))
    } else if name.len() == 1 && (name[0] as u32) < 128 {
        Some(KeyCode::Char(name[0]))
    } else if name.len() >= 1 && name[0] == 'f' {
        match parse_u8_spec(name.skip(1)) {
            Some(n) => if 1 <= n <= MAX_FUNCTION_KEY {
                Some(KeyCode::F(n))
            } else {
                None
            },
            None => None,
        }
    } else {
        None
    }
}

/// A spec with leading modifier words (`ctrl`, `alt`, `shift`, each followed
/// by `-`) and then a key name, which may itself contain `-`.
pub open spec fn parse_with_modifiers(s: Seq<char>, m: KeyModifiers) -> Option<KeyBinding>
    decreases s.len(),
{
    if s == seq!['c', 't', 'r', 'l'] || s == seq!['a', 'l', 't'] || s == seq![
        's',
        'h',
        'i',
        'f',
        't',
    ] {
        None
    } else if s.len() >= 5 && s.take(5) == seq!['c', 't', 'r', 'l', '-'] {
        parse_with_modifiers(s.skip(5), KeyModifiers { control: true, ..m })
    } else if s.len() >= 4 && s.take(4) == seq!['a', 'l', 't', '-'] {
        parse_with_modifiers(s.skip(4), KeyModifiers { alt: true, ..m })
    } else if s.len() >= 6 && s.take(6) == seq!['s', 'h', 'i', 'f', 't', '-'] {
        parse_with_modifiers(s.skip(6), KeyModifiers { shift: true, ..m })
    } else {
        match parse_key_name(s) {
            Some(key) => Some(binding_of(key, m)),
            None => None,
        }
    }
}

/// The binding a key spec denotes, if it denotes one.
pub open spec fn parse_keybinding_spec(s: Seq<char>) -> Option<KeyBinding> {
    parse_with_modifiers(s, no_modifiers())
}

fn parse_u8_at(chars: &Vec<char>, start: usize) -> (r: Option<u8>)
    requires
        start <= chars@.len(),
    ensures
        r == parse_u8_spec(chars@.skip(start as int)),
{
    let ghost s = chars@.skip(start as int);
    let mut pos = start;
    if pos < chars.len() && chars[pos] == '+' {
        pos = pos + 1;
    }
    let ghost digits = chars@.skip(pos as int);
    proof {
        if s.len() >= 1 && s[0] == '+' {
            assert(s.skip(1) =~= digits);
        } else {
            assert(s =~= digits);
        }
    }
    if pos == chars.len() {
        return None;
    }
    let mut value: u32 = 0;
    let mut i = pos;
    while i < chars.len()
        invariant
            pos <= i <= chars@.len(),
            digits == chars@.skip(pos as int),
            s == chars@.skip(start as int),
            (s.len() >= 1 && s[0] == '+') ==> digits == s.skip(1),
            !(s.len() >= 1 && s[0] == '+') ==> digits == s,
            forall|j: int| pos <= j < i ==> is_ascii_digit(chars@[j]),
            value as int == digits_value(chars@.subrange(pos as int, i as int)),
            value <= 255,
        decreases chars@.len() - i,
    {
        let c = chars[i];
        if !('0' <= c && c <= '9') {
            proof {
                assert(digits[i - pos] == c);
                assert(!is_ascii_digit(digits[i - pos]));
                assert(0 <= i - pos < digits.len());
                assert(!all_ascii_digits(digits));
                assert(digits == unsigned_digits(s));
                assert(parse_u8_spec(s) is None);
            }
            return None;
        }
        let d = (c as u32) - ('0' as u32);
        proof {
            assert(chars@.subrange(pos as int, i + 1).drop_last() =~= chars@.subrange(
                pos as int,
                i as int,
            ));
        }
        let next = value * 10 + d;
        if next > 255 {
            proof {
                assert(chars@.subrange(pos as int, i + 1).last() == c);
                assert(digits_value(chars@.subrange(pos as int, i + 1)) == next);
                assert(digits.take((i + 1 - pos) as int) =~= chars@.subrange(pos as int, i + 1));
                if all_ascii_digits(digits) {
                    lemma_digits_value_monotone(digits, (i + 1 - pos) as int);
                    assert(digits_value(digits) > 255);
                }
                assert(digits == unsigned_digits(s));
                assert(parse_u8_spec(s) is None);
            }
            return None;
        }
        value = next;
        i = i + 1;
    }
    proof {
        assert(chars@.subrange(pos as int, chars@.len() as int) =~= digits);
        assert forall|j: int| 0 <= j < digits.len() implies is_ascii_digit(digits[j]) by {
            assert(digits[j] == chars@[j + pos]);
        };
    }
    Some(value as u8)
}

/// Digit strings only grow in value when more digits follow.
proof fn lemma_digits_value_monotone(d: Seq<char>, k: int)
    requires
        0 <= k <= d.len(),
        forall|i: int| 0 <= i < d.len() ==> is_ascii_digit(d[i]),
    ensures
        digits_value(d.take(k)) <= digits_value(d),
    decreases d.len() - k,
{
    if k < d.len() {
        lemma_digits_value_monotone(d, k + 1);
        assert(d.take(k + 1).drop_last() =~= d.take(k));
        lemma_digits_value_nonneg(d.take(k));
    } else {
        assert(d.take(k) =~= d);
    }
}

proof fn lemma_digits_value_nonneg(d: Seq<char>)
    requires
        forall|i: int| 0 <= i < d.len() ==> is_ascii_digit(d[i]),
    ensures
        digits_value(d) >= 0,
    decreases d.len(),
{
    if d.len() > 0 {
        lemma_digits_value_nonneg(d.drop_last());
    }
}

fn parse_key_name_at(chars: &Vec<char>, pos: usize) -> (r: Option<KeyCode>)
    requires
        pos <= chars@.len(),
    ensures
        r == parse_key_name(chars@.skip(pos as int)),
{
    let ghost name = chars@.skip(pos as int);
    if rest_equals(chars, pos, &['e', 'n', 't', 'e', 'r']) {
        Some(KeyCode::Enter)
    } else if rest_equals(chars, pos, &['t', 'a', 'b']) {
        Some(KeyCode::Tab)
    } else if rest_equals(chars, pos, &['b', 'a', 'c', 'k', 's', 'p', 'a', 'c', 'e']) {
        Some(KeyCode::Backspace)
    } else if rest_equals(chars, pos, &['e', 's', 'c']) {
        Some(KeyCode::Esc)
    } else if rest_equals(chars, pos, &['d', 'e', 'l', 'e', 't', 'e']) {
        Some(KeyCode::Delete)
    } else if rest_equals(chars, pos, &['u', 'p']) {
        Some(KeyCode::Up)
    } else if rest_equals(chars, pos, &['d', 'o', 'w', 'n']) {
        Some(KeyCode::Down)
    } else if rest_equals(chars, pos, &['l', 'e', 'f', 't']) {
        Some(KeyCode::Left)
    } else if rest_equals(chars, pos, &['r', 'i', 'g', 'h', 't']) {
        Some(KeyCode::Right)
    } else if rest_equals(chars, pos, &['h', 'o', 'm', 'e']) {
        Some(KeyCode::Home)
    } else if rest_equals(chars, pos, &['e', 'n', 'd']) {
        Some(KeyCode::End)
    } else if rest_equals(chars, pos, &['p', 'a', 'g', 'e', '-', 'u', 'p']) {
        Some(KeyCode::PageUp)
    } else if rest_equals(chars, pos, &['p', 'a', 'g', 'e', '-', 'd', 'o', 'w', 'n']) {
        Some(KeyCode::PageDown)
    } else if rest_equals(chars, pos, &['s', 'p', 'a', 'c', 'e']) {
        Some(KeyCode::Char(' '))
    } else if rest_equals(chars, pos, &['m', 'i', 'n', 'u', 's']) {
        Some(KeyCode::Char('-'))
    } else if chars.len() - pos == 1 && (chars[pos] as u32) < 128 {
        Some(KeyCode::Char(chars[pos]))
    } else if chars.len() - pos >= 1 && chars[pos] == 'f' {
        proof {
            assert(name.skip(1) =~= chars@.skip(pos + 1));
        }
        match parse_u8_at(chars, pos + 1) {
            Some(n) => if 1 <= n && n <= MAX_FUNCTION_KEY {
                Some(KeyCode::F(n))
            } else {
                None
            },
            None => None,
        }
    } else {
        None
    }
}

/// Parse one key spec such as `ctrl-a`, `shift-enter`, `alt--` or `f12`.
///
/// Modifier words must come first; everything after the first other word,
/// dashes included, names the key.
pub fn parse_keybinding(spec: &str) -> (r: Option<KeyBinding>)
    ensures
        r == parse_keybinding_spec(spec@),
{
    let chars = str_chars(spec);
    let n = chars.len();
    let mut pos: usize = 0;
    let mut m = KeyModifiers::none();
    proof {
        assert(chars@.skip(0) =~= chars@);
    }
    loop
        invariant
            chars@ == spec@,
            n == chars@.len(),
            0 <= pos <= chars@.len(),
            parse_keybinding_spec(spec@) == parse_with_modifiers(chars@.skip(pos as int), m),
        decreases chars@.len() - pos,
    {
        let ghost s = chars@.skip(pos as int);
        if rest_equals(&chars, pos, &['c', 't', 'r', 'l']) || rest_equals(
            &chars,
            pos,
            &['a', 'l', 't'],
        ) || rest_equals(&chars, pos, &['s', 'h', 'i', 'f', 't']) {
            return None;
        }
        if has_prefix_at(&chars, pos, &['c', 't', 'r', 'l', '-']) {
            proof {
                assert(s.take(5) =~= chars@.subrange(pos as int, pos + 5));
                assert(s.skip(5) =~= chars@.skip(pos + 5));
            }
            m = KeyModifiers { control: true, ..m };
            pos = pos + 5;
        } else if has_prefix_at(&chars, pos, &['a', 'l', 't', '-']) {
            proof {
                assert(s[0] == 'a') by {
                    assert(chars@.subrange(pos as int, pos + 4)[0] == 'a');
                };
                assert(!(s.len() >= 5 && s.take(5) == seq!['c', 't', 'r', 'l', '-'])) by {
                    if s.len() >= 5 && s.take(5) == seq!['c', 't', 'r', 'l', '-'] {
                        assert(s.take(5)[0] == s[0]);
                    }
                };
                assert(s.take(4) =~= chars@.subrange(pos as int, pos + 4));
                assert(s.skip(4) =~= chars@.skip(pos + 4));
            }
            m = KeyModifiers { alt: true, ..m };
            pos = pos + 4;
        } else if has_prefix_at(&chars, pos, &['s', 'h', 'i', 'f', 't', '-']) {
            proof {
                assert(s[0] == 's') by {
                    assert(chars@.subrange(pos as int, pos + 6)[0] == 's');
                };
                assert(!(s.len() >= 5 && s.take(5) == seq!['c', 't', 'r', 'l', '-'])) by {
                    if s.len() >= 5 && s.take(5) == seq!['c', 't', 'r', 'l', '-'] {
                        assert(s.take(5)[0] == s[0]);
                    }
                };
                assert(!(s.len() >= 4 && s.take(4) == seq!['a', 'l', 't', '-'])) by {
                    if s.len() >= 4 && s.take(4) == seq!['a', 'l', 't', '-'] {
                        assert(s.take(4)[0] == s[0]);
                    }
                };
                assert(s.take(6) =~= chars@.subrange(pos as int, pos + 6));
                assert(s.skip(6) =~= chars@.skip(pos + 6));
            }
            m = KeyModifiers { shift: true, ..m };
            pos = pos + 6;
        } else {
            proof {
                if s.len() >= 5 && s.take(5) == seq!['c', 't', 'r', 'l', '-'] {
                    assert(s.take(5) =~= chars@.subrange(pos as int, pos + 5));
                }
                if s.len() >= 4 && s.take(4) == seq!['a', 'l', 't', '-'] {
                    assert(s.take(4) =~= chars@.subrange(pos as int, pos + 4));
                }
                if s.len() >= 6 && s.take(6) == seq!['s', 'h', 'i', 'f', 't', '-'] {
                    assert(s.take(6) =~= chars@.subrange(pos as int, pos + 6));
                }
            }
            return match parse_key_name_at(&chars, pos) {
                Some(key) => Some(KeyBinding::new(key, m)),
                None => None,
            };
        }
    }
}

} // verus!

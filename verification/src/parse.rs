//! Parsing a chord string into a trigger key and its required modifiers.
//!
//! A chord string has the form `[MOD+]*KEY`.  Every token before the last
//! `+` must be a modifier — `SHIFT`, `CTRL`/`CONTROL` or `ALT`, case
//! blind — and the final token must be a key out of the fixed vocabulary:
//! `F1`..`F12`, `SCROLLLOCK`, `PAUSE`, `INSERT`, a single letter or a single
//! digit.  Parsing fails on the first token outside those vocabularies,
//! naming it in the error.

use vstd::prelude::*;
use vstd::string::StrSliceExecFns;
use vstd::string::StringExecFns;

use crate::errors::HotkeyError;
use crate::keys::CODE_F1;
use crate::keys::CODE_F10;
use crate::keys::CODE_F11;
use crate::keys::CODE_F12;
use crate::keys::CODE_INSERT;
use crate::keys::CODE_PAUSE;
use crate::keys::CODE_SCROLLLOCK;
use crate::keys::KeyCode;
use crate::keys::ModifierClass;
use crate::modifiers::Modifiers;
use crate::modifiers::enable_class;
use crate::modifiers::with_class_set;

verus! {

/// A parsed chord: the trigger key and the exact modifier set required.
#[derive(Clone, Copy, Debug, PartialEq, Eq, Structural)]
pub struct Hotkey {
    pub key: KeyCode,
    pub modifiers: Modifiers,
}

/// The code point of a character with an ASCII lower-case letter raised to
/// its upper-case form; anything else is left as it is.
pub open spec fn upper_code(c: char) -> int {
    if 97 <= c as int <= 122 {
        c as int - 32
    } else {
        c as int
    }
}

/// Whether a token spells a pattern, case blind: same length, and each
/// character raised to upper case equals the pattern's character.
pub open spec fn token_is(t: Seq<char>, pat: Seq<char>) -> bool {
    t.len() == pat.len() && forall|i: int|
        0 <= i < t.len() ==> upper_code(t[i]) == upper_code(pat[i])
}

/// The modifier class a token names, if any.
pub open spec fn modifier_of_token(t: Seq<char>) -> Option<ModifierClass> {
    if token_is(t, seq!['S', 'H', 'I', 'F', 'T']) {
        Some(ModifierClass::Shift)
    } else if token_is(t, seq!['C', 'T', 'R', 'L']) || token_is(
        t,
        seq!['C', 'O', 'N', 'T', 'R', 'O', 'L'],
    ) {
        Some(ModifierClass::Ctrl)
    } else if token_is(t, seq!['A', 'L', 'T']) {
        Some(ModifierClass::Alt)
    } else {
        None
    }
}

/// The key code of an upper-case letter's code point, following the
/// platform's key-code table.
pub open spec fn letter_key_code(u: int) -> u16 {
    if u == 65 {
        30
    } else if u == 66 {
        48
    } else if u == 67 {
        46
    } else if u == 68 {
        32
    } else if u == 69 {
        18
    } else if u == 70 {
        33
    } else if u == 71 {
        34
    } else if u == 72 {
        35
    } else if u == 73 {
        23
    } else if u == 74 {
        36
    } else if u == 75 {
        37
    } else if u == 76 {
        38
    } else if u == 77 {
        50
    } else if u == 78 {
        49
    } else if u == 79 {
        24
    } else if u == 80 {
        25
    } else if u == 81 {
        16
    } else if u == 82 {
        19
    } else if u == 83 {
        31
    } else if u == 84 {
        20
    } else if u == 85 {
        22
    } else if u == 86 {
        47
    } else if u == 87 {
        17
    } else if u == 88 {
        45
    } else if u == 89 {
        21
    } else {
        44
    }
}

/// The key code of a digit's code point, following the platform's key-code
/// table, where the digit row starts at `1` and ends with `0`.
pub open spec fn digit_key_code(d: int) -> u16 {
    if d == 48 {
        11
    } else {
        (d - 47) as u16
    }
}

/// The key code a token names, if any: a function key `F1`..`F12`, one of
/// the named keys, a single letter or a single digit — all case blind.
pub open spec fn key_code_of_token(t: Seq<char>) -> Option<u16> {
    if token_is(t, seq!['S', 'C', 'R', 'O', 'L', 'L', 'L', 'O', 'C', 'K']) {
        Some(CODE_SCROLLLOCK)
    } else if token_is(t, seq!['P', 'A', 'U', 'S', 'E']) {
        Some(CODE_PAUSE)
    } else if token_is(t, seq!['I', 'N', 'S', 'E', 'R', 'T']) {
        Some(CODE_INSERT)
    } else if t.len() == 2 && upper_code(t[0]) == 70 && 49 <= t[1] as int <= 57 {
        Some((CODE_F1 + (t[1] as int - 49)) as u16)
    } else if t.len() == 3 && upper_code(t[0]) == 70 && t[1] as int == 49 && 48 <= t[2] as int
        <= 50 {
        Some(
            if t[2] as int == 48 {
                CODE_F10
            } else if t[2] as int == 49 {
                CODE_F11
            } else {
                CODE_F12
            },
        )
    } else if t.len() == 1 && 65 <= upper_code(t[0]) <= 90 {
        Some(letter_key_code(upper_code(t[0])))
    } else if t.len() == 1 && 48 <= t[0] as int <= 57 {
        Some(digit_key_code(t[0] as int))
    } else {
        None
    }
}

/// The index of the first `+` in a chord string, or the string's length when
/// it has none.
pub open spec fn first_plus(s: Seq<char>) -> int
    decreases s.len(),
{
    if s.len() == 0 {
        0
    } else if s[0] == '+' {
        0
    } else {
        1 + first_plus(s.drop_first())
    }
}

/// A position with no `+` anywhere before it, holding a `+` or sitting at
/// the string's end, is where the first `+` is found.
pub proof fn lemma_first_plus_at(s: Seq<char>, k: int)
    requires
        0 <= k <= s.len(),
        forall|j: int| 0 <= j < k ==> s[j] != '+',
        k < s.len() ==> s[k] == '+',
    ensures
        first_plus(s) == k,
    decreases s.len(),
{
    if k == 0 {
    } else {
        assert(s[0] != '+');
        assert forall|j: int| 0 <= j < k - 1 implies s.drop_first()[j] != '+' by {
            assert(s.drop_first()[j] == s[j + 1]);
        }
        assert(k - 1 < s.drop_first().len() ==> s.drop_first()[k - 1] == s[k]);
        lemma_first_plus_at(s.drop_first(), k - 1);
    }
}

/// What parsing a chord string yields: a parsed chord, or the first
/// offending token.
pub enum ParseOutcome {
    /// The string parsed into a trigger key and its modifier set.
    Parsed(Hotkey),
    /// The token before some `+` names no modifier.
    UnknownModifier(Seq<char>),
    /// The final token names no key.
    UnknownKey(Seq<char>),
}

/// The meaning of a chord string.  With no `+` left the whole string must be
/// a key token and carries no modifiers; otherwise the token before the
/// first `+` must name a modifier, which is added to whatever the rest
/// yields.  The first token that fits neither vocabulary is the outcome.
pub open spec fn parse_chord(s: Seq<char>) -> ParseOutcome
    decreases s.len(),
{
    let p = first_plus(s);
    if p < 0 || p >= s.len() {
        match key_code_of_token(s) {
            Some(code) => ParseOutcome::Parsed(
                Hotkey {
                    key: KeyCode { code },
                    modifiers: Modifiers { shift: false, ctrl: false, alt: false },
                },
            ),
            None => ParseOutcome::UnknownKey(s),
        }
    } else {
        let tok = s.subrange(0, p);
        let rest = s.subrange(p + 1, s.len() as int);
        match modifier_of_token(tok) {
            Some(c) => match parse_chord(rest) {
                ParseOutcome::Parsed(h) => ParseOutcome::Parsed(
                    Hotkey { key: h.key, modifiers: with_class_set(h.modifiers, c) },
                ),
                other => other,
            },
            None => ParseOutcome::UnknownModifier(tok),
        }
    }
}

/// Raises an ASCII lower-case letter's code point to upper case.
fn upper_code_of(c: char) -> (u: u32)
    ensures
        u as int == upper_code(c),
{
    let x = c as u32;
    if 97 <= x && x <= 122 {
        x - 32
    } else {
        x
    }
}

/// Tests, case blind, whether the token at `[start, end)` spells `pat`.
fn range_token_is(chars: &Vec<char>, start: usize, end: usize, pat: &Vec<char>) -> (r: bool)
    requires
        start <= end <= chars@.len(),
    ensures
        r == token_is(chars@.subrange(start as int, end as int), pat@),
{
    let ghost t = chars@.subrange(start as int, end as int);
    if end - start != pat.len() {
        return false;
    }
    let m = pat.len();
    let mut j: usize = 0;
    while j < m
        invariant
            j <= m,
            m == pat@.len(),
            start + m <= chars@.len(),
            end == start + m,
            t == chars@.subrange(start as int, end as int),
            forall|i: int| 0 <= i < j ==> upper_code(t[i]) == upper_code(pat@[i]),
        decreases m - j,
    {
        let u = upper_code_of(chars[start + j]);
        let p = upper_code_of(pat[j]);
        proof {
            assert(t[j as int] == chars@[start + j]);
        }
        if u != p {
            return false;
        }
        j = j + 1;
    }
    true
}

/// Looks up the modifier class the token at `[start, end)` names, if any.
fn modifier_token_lookup(chars: &Vec<char>, start: usize, end: usize) -> (r: Option<ModifierClass>)
    requires
        start <= end <= chars@.len(),
    ensures
        r == modifier_of_token(chars@.subrange(start as int, end as int)),
{
    let shift: Vec<char> = vec!['S', 'H', 'I', 'F', 'T'];
    let ctrl: Vec<char> = vec!['C', 'T', 'R', 'L'];
    let control: Vec<char> = vec!['C', 'O', 'N', 'T', 'R', 'O', 'L'];
    let alt: Vec<char> = vec!['A', 'L', 'T'];
    proof {
        assert(shift@ =~= seq!['S', 'H', 'I', 'F', 'T']);
        assert(ctrl@ =~= seq!['C', 'T', 'R', 'L']);
        assert(control@ =~= seq!['C', 'O', 'N', 'T', 'R', 'O', 'L']);
        assert(alt@ =~= seq!['A', 'L', 'T']);
    }
    if range_token_is(chars, start, end, &shift) {
        Some(ModifierClass::Shift)
    } else if range_token_is(chars, start, end, &ctrl) || range_token_is(
        chars,
        start,
        end,
        &control,
    ) {
        Some(ModifierClass::Ctrl)
    } else if range_token_is(chars, start, end, &alt) {
        Some(ModifierClass::Alt)
    } else {
        None
    }
}

/// Looks up the key code of an upper-case letter's code point.
fn letter_key_lookup(u: u32) -> (code: u16)
    requires
        65 <= u <= 90,
    ensures
        code == letter_key_code(u as int),
{
    if u == 65 {
        30
    } else if u == 66 {
        48
    } else if u == 67 {
        46
    } else if u == 68 {
        32
    } else if u == 69 {
        18
    } else if u == 70 {
        33
    } else if u == 71 {
        34
    } else if u == 72 {
        35
    } else if u == 73 {
        23
    } else if u == 74 {
        36
    } else if u == 75 {
        37
    } else if u == 76 {
        38
    } else if u == 77 {
        50
    } else if u == 78 {
        49
    } else if u == 79 {
        24
    } else if u == 80 {
        25
    } else if u == 81 {
        16
    } else if u == 82 {
        19
    } else if u == 83 {
        31
    } else if u == 84 {
        20
    } else if u == 85 {
        22
    } else if u == 86 {
        47
    } else if u == 87 {
        17
    } else if u == 88 {
        45
    } else if u == 89 {
        21
    } else {
        44
    }
}

/// Looks up the key code the token at `[start, end)` names, if any.
fn key_token_lookup(chars: &Vec<char>, start: usize, end: usize) -> (r: Option<u16>)
    requires
        start <= end <= chars@.len(),
    ensures
        r == key_code_of_token(chars@.subrange(start as int, end as int)),
{
    let ghost t = chars@.subrange(start as int, end as int);
    let scrolllock: Vec<char> = vec!['S', 'C', 'R', 'O', 'L', 'L', 'L', 'O', 'C', 'K'];
    let pause: Vec<char> = vec!['P', 'A', 'U', 'S', 'E'];
    let insert: Vec<char> = vec!['I', 'N', 'S', 'E', 'R', 'T'];
    proof {
        assert(scrolllock@ =~= seq!['S', 'C', 'R', 'O', 'L', 'L', 'L', 'O', 'C', 'K']);
        assert(pause@ =~= seq!['P', 'A', 'U', 'S', 'E']);
        assert(insert@ =~= seq!['I', 'N', 'S', 'E', 'R', 'T']);
    }
    if range_token_is(chars, start, end, &scrolllock) {
        return Some(CODE_SCROLLLOCK);
    }
    if range_token_is(chars, start, end, &pause) {
        return Some(CODE_PAUSE);
    }
    if range_token_is(chars, start, end, &insert) {
        return Some(CODE_INSERT);
    }
    let len = end - start;
    if len == 2 {
        let u0 = upper_code_of(chars[start]);
        let u1 = upper_code_of(chars[start + 1]);
        proof {
            assert(t[0] == chars@[start as int]);
            assert(t[1] == chars@[start as int + 1]);
        }
        if u0 == 70 && 49 <= u1 && u1 <= 57 {
            return Some((CODE_F1 as u32 + (u1 - 49)) as u16);
        }
        return None;
    }
    if len == 3 {
        let u0 = upper_code_of(chars[start]);
        let u1 = upper_code_of(chars[start + 1]);
        let u2 = upper_code_of(chars[start + 2]);
        proof {
            assert(t[0] == chars@[start as int]);
            assert(t[1] == chars@[start as int + 1]);
            assert(t[2] == chars@[start as int + 2]);
        }
        if u0 == 70 && u1 == 49 && 48 <= u2 && u2 <= 50 {
            return Some(
                if u2 == 48 {
                    CODE_F10
                } else if u2 == 49 {
                    CODE_F11
                } else {
                    CODE_F12
                },
            );
        }
        return None;
    }
    if len == 1 {
        let u0 = upper_code_of(chars[start]);
        proof {
            assert(t[0] == chars@[start as int]);
        }
        if 65 <= u0 && u0 <= 90 {
            return Some(letter_key_lookup(u0));
        }
        if 48 <= u0 && u0 <= 57 {
            if u0 == 48 {
                return Some(11);
            }
            return Some((u0 - 47) as u16);
        }
        return None;
    }
    None
}

/// Parses the chord string from `start` on, as `parse_chord` gives its
/// meaning, turning an offending token into the error that names it.
fn parse_suffix(s: &str, chars: &Vec<char>, start: usize) -> (r: Result<Hotkey, HotkeyError>)
    requires
        chars@ == s@,
        start <= chars@.len(),
    ensures
        ({
            let outcome = parse_chord(chars@.subrange(start as int, chars@.len() as int));
            match r {
                Ok(h) => outcome == ParseOutcome::Parsed(h),
                Err(HotkeyError::UnknownModifier(tok)) => outcome == ParseOutcome::UnknownModifier(
                    tok@,
                ),
                Err(HotkeyError::UnknownKey(tok)) => outcome == ParseOutcome::UnknownKey(tok@),
                Err(HotkeyError::NoKeyboardsFound) => false,
            }
        }),
    decreases chars@.len() - start,
{
    let ghost suffix = chars@.subrange(start as int, chars@.len() as int);
    let n = chars.len();
    let mut i: usize = start;
    while i < n && chars[i] != '+'
        invariant
            start <= i <= n,
            n == chars@.len(),
            forall|j: int| start <= j < i ==> chars@[j] != '+',
        decreases n - i,
    {
        i = i + 1;
    }
    proof {
        assert forall|j: int| 0 <= j < i - start implies suffix[j] != '+' by {
            assert(suffix[j] == chars@[start + j]);
        }
        if i < n {
            assert(suffix[i - start] == chars@[i as int]);
        }
        lemma_first_plus_at(suffix, i - start);
    }
    if i == n {
        match key_token_lookup(chars, start, n) {
            Some(code) => Ok(
                Hotkey {
                    key: KeyCode { code },
                    modifiers: Modifiers { shift: false, ctrl: false, alt: false },
                },
            ),
            None => {
                let token = s.substring_char(start, n).to_owned();
                Err(HotkeyError::UnknownKey(token))
            },
        }
    } else {
        let ghost tok = suffix.subrange(0, i - start);
        proof {
            assert(tok =~= chars@.subrange(start as int, i as int));
        }
        match modifier_token_lookup(chars, start, i) {
            Some(class) => {
                let ghost rest = suffix.subrange(i - start + 1, suffix.len() as int);
                proof {
                    assert(rest =~= chars@.subrange(i as int + 1, chars@.len() as int));
                }
                match parse_suffix(s, chars, i + 1) {
                    Ok(h) => {
                        let mut modifiers = h.modifiers;
                        enable_class(&mut modifiers, class);
                        Ok(Hotkey { key: h.key, modifiers })
                    },
                    Err(e) => Err(e),
                }
            },
            None => {
                let token = s.substring_char(start, i).to_owned();
                Err(HotkeyError::UnknownModifier(token))
            },
        }
    }
}

/// Parses a chord string such as `Shift+F9`, `Ctrl+Alt+F1` or `F10` into the
/// trigger key and the exact modifier set it requires.  Fails on the first
/// token outside the modifier or key vocabulary, naming that token.
pub fn parse_hotkey(s: &str) -> (r: Result<Hotkey, HotkeyError>)
    ensures
        ({
            let outcome = parse_chord(s@);
            match r {
                Ok(h) => outcome == ParseOutcome::Parsed(h),
                Err(HotkeyError::UnknownModifier(tok)) => outcome == ParseOutcome::UnknownModifier(
                    tok@,
                ),
                Err(HotkeyError::UnknownKey(tok)) => outcome == ParseOutcome::UnknownKey(tok@),
                Err(HotkeyError::NoKeyboardsFound) => false,
            }
        }),
{
    let n = s.unicode_len();
    let mut chars: Vec<char> = Vec::new();
    let mut i: usize = 0;
    while i < n
        invariant
            i <= n,
            n == s@.len(),
            chars@ =~= s@.subrange(0, i as int),
        decreases n - i,
    {
        chars.push(s.get_char(i));
        i = i + 1;
    }
    proof {
        assert(chars@ =~= s@);
        assert(s@.subrange(0, s@.len() as int) =~= s@);
    }
    parse_suffix(s, &chars, 0)
}

} // verus!

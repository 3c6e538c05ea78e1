//! Key names and short texts as people read them.

use vstd::prelude::*;

use crate::text;
use crate::text::{chars_of, concat, same_text, slice_of, string_of, substring, CharSet};

verus! {

/// Whether a text begins with another.
pub open spec fn starts_with(s: Seq<char>, p: Seq<char>) -> bool {
    p.len() <= s.len() && s.take(p.len() as int) == p
}

/// Whether a text ends with another.
pub open spec fn ends_with(s: Seq<char>, p: Seq<char>) -> bool {
    p.len() <= s.len() && s.skip(s.len() - p.len()) == p
}

/// A key name without any `KEY_` in front.
pub open spec fn bare_key(s: Seq<char>) -> Seq<char>
    decreases s.len(),
{
    if "KEY_"@.len() > 0 && starts_with(s, "KEY_"@) {
        bare_key(s.skip("KEY_"@.len() as int))
    } else {
        s
    }
}

/// How a modifier is called.
pub open spec fn modifier_name(s: Seq<char>) -> Seq<char> {
    if s == "ALT"@ {
        "Alt"@
    } else if s == "CTRL"@ {
        "Ctrl"@
    } else if s == "SHIFT"@ {
        "Shift"@
    } else if s == "META"@ {
        "Super"@
    } else {
        s
    }
}

/// The human label of an input key name.
pub open spec fn key_label(key: Seq<char>) -> Seq<char> {
    let k = bare_key(key);
    if starts_with(k, "RIGHT"@) {
        "Right "@ + modifier_name(k.skip("RIGHT"@.len() as int))
    } else if starts_with(k, "LEFT"@) {
        "Left "@ + modifier_name(k.skip("LEFT"@.len() as int))
    } else {
        k
    }
}

/// Whether characters begin with a text, and if so, how long that text is.
pub fn prefix_len(c: &Vec<char>, p: &str) -> (r: Option<usize>)
    ensures
        r is Some <==> starts_with(c@, p@),
        r matches Some(n) ==> n == p@.len(),
{
    let q = chars_of(p);
    if q.len() > c.len() {
        return None;
    }
    let mut i: usize = 0;
    while i < q.len()
        invariant
            q@ == p@,
            i <= q@.len() <= c@.len(),
            forall|k: int| 0 <= k < i ==> c@[k] == #[trigger] q@[k],
        decreases q@.len() - i,
    {
        if c[i] != q[i] {
            return None;
        }
        i = i + 1;
    }
    assert(c@.take(q@.len() as int) == q@);
    Some(q.len())
}

/// Whether characters end with a text.
pub fn has_suffix(c: &Vec<char>, p: &str) -> (r: bool)
    ensures
        r == ends_with(c@, p@),
{
    let q = chars_of(p);
    if q.len() > c.len() {
        return false;
    }
    let start: usize = c.len() - q.len();
    let mut i: usize = 0;
    while i < q.len()
        invariant
            q@ == p@,
            start + q@.len() == c@.len() <= usize::MAX,
            i <= q@.len(),
            forall|k: int| 0 <= k < i ==> c@[start + k] == #[trigger] q@[k],
        decreases q@.len() - i,
    {
        if c[start + i] != q[i] {
            return false;
        }
        i = i + 1;
    }
    assert(c@.skip(start as int) == q@);
    true
}

/// How a modifier is called, as a string.
fn modifier_label(s: &str) -> (r: String)
    ensures
        r@ == modifier_name(s@),
{
    if same_text(s, "ALT") {
        "Alt".to_owned()
    } else if same_text(s, "CTRL") {
        "Ctrl".to_owned()
    } else if same_text(s, "SHIFT") {
        "Shift".to_owned()
    } else if same_text(s, "META") {
        "Super".to_owned()
    } else {
        s.to_owned()
    }
}

/// Human label for an evdev key name, e.g. "KEY_RIGHTALT" -> "Right Alt".
pub fn hotkey_label(key: &str) -> (r: String)
    ensures
        r@ == key_label(key@),
{
    let mut k = chars_of(key);
    proof {
        reveal_strlit("KEY_");
    }
    loop
        invariant_except_break
            bare_key(k@) == bare_key(key@),
            "KEY_"@.len() == 4,
        ensures
            k@ == bare_key(key@),
        decreases k@.len(),
    {
        match prefix_len(&k, "KEY_") {
            Some(n) => {
                let rest = slice_of(&k, n, k.len());
                k = rest;
            },
            None => {
                break ;
            },
        }
    }
    match prefix_len(&k, "RIGHT") {
        Some(n) => {
            let rest = substring(&k, n, k.len());
            return concat("Right ", modifier_label(rest.as_str()).as_str());
        },
        None => {},
    }
    match prefix_len(&k, "LEFT") {
        Some(n) => {
            let rest = substring(&k, n, k.len());
            return concat("Left ", modifier_label(rest.as_str()).as_str());
        },
        None => {},
    }
    string_of(&k)
}

/// However often a key name says `KEY_`, its label is that of the bare name.
pub proof fn label_ignores_key_prefix(key: Seq<char>)
    ensures
        key_label("KEY_"@ + key) == key_label(key),
        !starts_with(bare_key(key), "KEY_"@),
    decreases key.len(),
{
    reveal_strlit("KEY_");
    let whole = "KEY_"@ + key;
    assert(whole.take(4) == "KEY_"@);
    assert(whole.skip(4) == key);
    if starts_with(key, "KEY_"@) {
        label_ignores_key_prefix(key.skip(4));
    }
}

/// One decimal digit.
pub open spec fn digit(d: nat) -> char {
    if d == 0 {
        '0'
    } else if d == 1 {
        '1'
    } else if d == 2 {
        '2'
    } else if d == 3 {
        '3'
    } else if d == 4 {
        '4'
    } else if d == 5 {
        '5'
    } else if d == 6 {
        '6'
    } else if d == 7 {
        '7'
    } else if d == 8 {
        '8'
    } else {
        '9'
    }
}

/// A number in decimal.
pub open spec fn decimal(n: nat) -> Seq<char>
    decreases n,
{
    if n < 10 {
        seq![digit(n)]
    } else {
        decimal(n / 10).push(digit(n % 10))
    }
}

/// One decimal digit.
pub fn digit_char(d: u64) -> (r: char)
    requires
        d < 10,
    ensures
        r == digit(d as nat),
{
    if d == 0 {
        '0'
    } else if d == 1 {
        '1'
    } else if d == 2 {
        '2'
    } else if d == 3 {
        '3'
    } else if d == 4 {
        '4'
    } else if d == 5 {
        '5'
    } else if d == 6 {
        '6'
    } else if d == 7 {
        '7'
    } else if d == 8 {
        '8'
    } else {
        '9'
    }
}

/// A number in decimal.
pub fn number(n: u64) -> (r: String)
    ensures
        r@ == decimal(n as nat),
    decreases n,
{
    if n < 10 {
        let mut s = String::new();
        s.push(digit_char(n));
        s
    } else {
        let mut s = number(n / 10);
        s.push(digit_char(n % 10));
        s
    }
}

/// Every character of a decimal number is a digit, and there is at least one.
pub proof fn lemma_decimal_digits(n: nat)
    ensures
        decimal(n).len() > 0,
        forall|i: int| 0 <= i < decimal(n).len() ==> '0' <= #[trigger] decimal(n)[i] <= '9',
    decreases n,
{
    if n >= 10 {
        lemma_decimal_digits(n / 10);
    }
}

/// Two numbers with the same decimal form are the same.
pub proof fn lemma_decimal_injective(a: nat, b: nat)
    requires
        decimal(a) == decimal(b),
    ensures
        a == b,
    decreases a,
{
    if a < 10 && b < 10 {
        assert(decimal(a)[0] == digit(a));
    } else if a < 10 {
        lemma_decimal_digits(b / 10);
        assert(decimal(a).len() == 1);
    } else if b < 10 {
        lemma_decimal_digits(a / 10);
        assert(decimal(b).len() == 1);
    } else {
        assert(decimal(a).drop_last() == decimal(a / 10));
        assert(decimal(b).drop_last() == decimal(b / 10));
        lemma_decimal_injective(a / 10, b / 10);
        assert(decimal(a).last() == digit(a % 10));
    }
}

/// How long ago something was, in a few characters.
pub open spec fn ago_label(secs: int) -> Seq<char> {
    if secs < 45 {
        "now"@
    } else if secs < 3600 {
        decimal(((secs + 30) / 60) as nat) + "m"@
    } else if secs < 86_400 {
        decimal((secs / 3600) as nat) + "h"@
    } else {
        decimal((secs / 86_400) as nat) + "d"@
    }
}

/// How long ago something was, in a few characters. Nothing is in the future:
/// a negative age reads "now".
pub fn ago(secs: i64) -> (r: String)
    ensures
        r@ == ago_label(secs as int),
{
    if secs < 45 {
        "now".to_owned()
    } else if secs < 3600 {
        concat(number(((secs + 30) / 60) as u64).as_str(), "m")
    } else if secs < 86_400 {
        concat(number((secs / 3600) as u64).as_str(), "h")
    } else {
        concat(number((secs / 86_400) as u64).as_str(), "d")
    }
}

/// A text of at most `max` characters: the text itself, or its start with an
/// ellipsis.
pub open spec fn shortened(s: Seq<char>, max: nat) -> Seq<char> {
    if s.len() <= max {
        s
    } else {
        text::trim_end(s.take(max - 1), CharSet::White) + "…"@
    }
}

/// Cuts a text to at most `max` characters.
pub fn ellipsize(s: &str, max: usize) -> (r: String)
    requires
        max > 0 || s@.len() == 0,
    ensures
        r@ == shortened(s@, max as nat),
{
    let c = chars_of(s);
    if c.len() <= max {
        s.to_owned()
    } else {
        let cut = slice_of(&c, 0, max - 1);
        let kept = text::trimmed_end(&cut, CharSet::White);
        concat(string_of(&kept).as_str(), "…")
    }
}

/// A shortened text fits.
pub proof fn shortened_fits(s: Seq<char>, max: nat)
    requires
        max > 0,
    ensures
        shortened(s, max).len() <= max,
{
    reveal_strlit("…");
    if s.len() > max {
        text::lemma_tail_bounds(s.take(max - 1), CharSet::White);
    }
}

/// A text begins with another exactly if it is that one with something behind
/// it, and ends with it exactly if it has something in front.
pub proof fn beginnings_and_ends(s: Seq<char>, p: Seq<char>, rest: Seq<char>)
    ensures
        starts_with(p + rest, p),
        ends_with(rest + p, p),
        starts_with(s, p) ==> s == p + s.skip(p.len() as int),
        ends_with(s, p) ==> s == s.take(s.len() - p.len()) + p,
{
    assert((p + rest).take(p.len() as int) =~= p);
    assert((rest + p).skip((rest + p).len() - p.len()) =~= p);
    if starts_with(s, p) {
        assert(s =~= p + s.skip(p.len() as int));
    }
    if ends_with(s, p) {
        assert(s =~= s.take(s.len() - p.len()) + p);
    }
}

/// A key on the right or the left is called so, with the name of its modifier;
/// any other key is called by its bare name.
pub proof fn keys_are_called_by_their_side(name: Seq<char>)
    ensures
        key_label("RIGHT"@ + name) == "Right "@ + modifier_name(name),
        key_label("LEFT"@ + name) == "Left "@ + modifier_name(name),
        !starts_with(name, "KEY_"@) && !starts_with(name, "RIGHT"@) && !starts_with(name, "LEFT"@)
            ==> key_label(name) == name,
{
    reveal_strlit("KEY_");
    reveal_strlit("RIGHT");
    reveal_strlit("LEFT");
    let r = "RIGHT"@ + name;
    let l = "LEFT"@ + name;
    assert(r[0] == 'R' && l[0] == 'L');
    assert(!starts_with(r, "KEY_"@)) by {
        if starts_with(r, "KEY_"@) {
            assert(r.take(4)[0] == 'K');
        }
    }
    assert(!starts_with(l, "KEY_"@)) by {
        if starts_with(l, "KEY_"@) {
            assert(l.take(4)[0] == 'K');
        }
    }
    assert(!starts_with(l, "RIGHT"@)) by {
        if starts_with(l, "RIGHT"@) {
            assert(l.take(5)[0] == 'R');
        }
    }
    assert(r.take(5) =~= "RIGHT"@);
    assert(r.skip(5) =~= name);
    assert(l.take(4) =~= "LEFT"@);
    assert(l.skip(4) =~= name);
}

/// Four modifiers have names of their own, and every other name stays.
pub proof fn modifiers_have_names(name: Seq<char>)
    ensures
        name == "ALT"@ ==> modifier_name(name) == "Alt"@,
        name == "CTRL"@ ==> modifier_name(name) == "Ctrl"@,
        name == "SHIFT"@ ==> modifier_name(name) == "Shift"@,
        name == "META"@ ==> modifier_name(name) == "Super"@,
        name != "ALT"@ && name != "CTRL"@ && name != "SHIFT"@ && name != "META"@ ==> modifier_name(
            name,
        ) == name,
{
    reveal_strlit("ALT");
    reveal_strlit("CTRL");
    reveal_strlit("SHIFT");
    reveal_strlit("META");
    assert("ALT"@[0] == 'A' && "CTRL"@[0] == 'C' && "SHIFT"@[0] == 'S' && "META"@[0] == 'M');
}

/// The number that digits stand for.
pub open spec fn value(digits: Seq<char>) -> int
    decreases digits.len(),
{
    if digits.len() == 0 {
        0
    } else {
        10 * value(digits.drop_last()) + (digits.last() as int - '0' as int)
    }
}

/// A number's decimal form stands for that number, and has no zero in front.
pub proof fn decimal_form_has_the_value(n: nat)
    ensures
        value(decimal(n)) == n,
        decimal(n).len() > 1 ==> decimal(n)[0] != '0',
        n > 0 ==> decimal(n)[0] != '0',
    decreases n,
{
    reveal_with_fuel(value, 2);
    if n < 10 {
        assert(decimal(n).drop_last() =~= Seq::<char>::empty());
    } else {
        decimal_form_has_the_value(n / 10);
        lemma_decimal_digits(n / 10);
        assert(decimal(n).drop_last() =~= decimal(n / 10));
    }
}

/// An age is told in the largest unit that fits: minutes to the nearest one,
/// and whole hours and days.
pub proof fn ages_are_told_in_their_unit(secs: int) -> (n: nat)
    ensures
        secs < 45 ==> ago_label(secs) == "now"@,
        45 <= secs < 3600 ==> ago_label(secs) == decimal(n) + "m"@ && secs - 30 < 60 * n <= secs
            + 30,
        3600 <= secs < 86_400 ==> ago_label(secs) == decimal(n) + "h"@ && 3600 * n <= secs < 3600
            * n + 3600,
        86_400 <= secs ==> ago_label(secs) == decimal(n) + "d"@ && 86_400 * n <= secs < 86_400 * n
            + 86_400,
{
    if secs < 45 {
        0
    } else if secs < 3600 {
        ((secs + 30) / 60) as nat
    } else if secs < 86_400 {
        (secs / 3600) as nat
    } else {
        (secs / 86_400) as nat
    }
}

/// A text that fits is shown as it is. Of a longer one the beginning is shown,
/// as much of it as fits before the ellipsis, without white space there.
pub proof fn long_texts_show_their_beginning(s: Seq<char>, max: nat)
    requires
        max > 0,
    ensures
        s.len() <= max ==> shortened(s, max) == s,
        s.len() > max ==> ({
            let shown = shortened(s, max);
            let n = shown.len() - 1;
            &&& 0 <= n < max
            &&& shown.last() == '…'
            &&& shown.take(n) == s.take(n)
            &&& n > 0 ==> !text::is_whitespace(s[n - 1])
            &&& forall|i: int| n <= i < max - 1 ==> text::is_whitespace(#[trigger] s[i])
        }),
{
    reveal_strlit("…");
    if s.len() > max {
        let cut = s.take(max - 1);
        text::lemma_tail_bounds(cut, CharSet::White);
        let shown = shortened(s, max);
        let n = shown.len() - 1;
        assert(shown.take(n) =~= s.take(n));
        assert forall|i: int| n <= i < max - 1 implies text::is_whitespace(#[trigger] s[i]) by {
            assert(cut[i] == s[i]);
            assert(CharSet::White.has(cut[i]));
        }
    }
}

} // verus!

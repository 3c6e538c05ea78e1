//! Characters and strings: the vocabulary that the rest of the crate is
//! specified in.
//!
//! A string is its sequence of characters. Trimming and splitting are stated
//! over character sets, so that each rule names the characters it acts on.

use vstd::prelude::*;

verus! {

/// `String::push` appends one character.
pub assume_specification[ String::push ](s: &mut String, c: char)
    ensures
        final(s)@ == old(s)@.push(c),
;

/// Whether a character lies in the ASCII range.
pub open spec fn is_ascii(c: char) -> bool {
    (c as u32) < 128
}

/// ASCII letters and digits.
pub open spec fn is_ascii_alphanumeric(c: char) -> bool {
    'a' <= c <= 'z' || 'A' <= c <= 'Z' || '0' <= c <= '9'
}

/// ASCII upper case to lower case, everything else unchanged.
pub open spec fn ascii_lower(c: char) -> char {
    if 'A' <= c <= 'Z' {
        ((c as u32) + 32) as char
    } else {
        c
    }
}

/// ASCII lower case to upper case, everything else unchanged.
pub open spec fn ascii_upper(c: char) -> char {
    if 'a' <= c <= 'z' {
        ((c as u32) - 32) as char
    } else {
        c
    }
}

/// Every character is ASCII.
pub open spec fn all_ascii(s: Seq<char>) -> bool {
    forall|i: int| 0 <= i < s.len() ==> is_ascii(#[trigger] s[i])
}

/// What `char::is_alphanumeric` answers beyond ASCII.
pub uninterp spec fn unicode_alphanumeric(c: char) -> bool;

/// What `char::is_uppercase` answers beyond ASCII.
pub uninterp spec fn unicode_uppercase(c: char) -> bool;

/// What `char::to_uppercase` yields beyond ASCII.
pub uninterp spec fn unicode_to_uppercase(c: char) -> Seq<char>;

/// What `str::to_lowercase` yields for text that is not all ASCII.
pub uninterp spec fn unicode_to_lowercase(s: Seq<char>) -> Seq<char>;

/// A letter or digit, in the sense of `char::is_alphanumeric`.
pub open spec fn is_alphanumeric(c: char) -> bool {
    if is_ascii(c) {
        is_ascii_alphanumeric(c)
    } else {
        unicode_alphanumeric(c)
    }
}

/// An upper case letter, in the sense of `char::is_uppercase`.
pub open spec fn is_uppercase(c: char) -> bool {
    if is_ascii(c) {
        'A' <= c <= 'Z'
    } else {
        unicode_uppercase(c)
    }
}

/// The upper case form of a character, which may be several characters.
pub open spec fn to_uppercase(c: char) -> Seq<char> {
    if is_ascii(c) {
        seq![ascii_upper(c)]
    } else {
        unicode_to_uppercase(c)
    }
}

/// The lower case form of a text.
pub open spec fn to_lowercase(s: Seq<char>) -> Seq<char> {
    if all_ascii(s) {
        s.map_values(|c: char| ascii_lower(c))
    } else {
        unicode_to_lowercase(s)
    }
}

/// Calls `char::is_alphanumeric`. Within ASCII that is the letters and
/// digits; beyond it the answer is the Unicode tables', and has only a name.
#[verifier::external_body]
pub(crate) fn char_is_alphanumeric(c: char) -> (r: bool)
    ensures
        r == (if is_ascii(c) { is_ascii_alphanumeric(c) } else { unicode_alphanumeric(c) }),
{
    c.is_alphanumeric()
}

/// Calls `char::is_uppercase`. Within ASCII that is `A` to `Z`; beyond it the
/// answer is the Unicode tables', and has only a name.
#[verifier::external_body]
pub(crate) fn char_is_uppercase(c: char) -> (r: bool)
    ensures
        r == (if is_ascii(c) { 'A' <= c <= 'Z' } else { unicode_uppercase(c) }),
{
    c.is_uppercase()
}

/// Calls `char::to_uppercase` and writes its characters to a string. An ASCII
/// character gives the one character that ASCII upper-casing gives; beyond
/// ASCII the mapping is the Unicode tables', and has only a name.
#[verifier::external_body]
pub(crate) fn char_to_uppercase(c: char) -> (r: String)
    ensures
        r@ == (if is_ascii(c) { seq![ascii_upper(c)] } else { unicode_to_uppercase(c) }),
{
    c.to_uppercase().to_string()
}

/// Calls `str::to_lowercase`. On ASCII text it lowers `A` to `Z` one by one;
/// on other text the mapping is the Unicode tables', and has only a name.
#[verifier::external_body]
pub(crate) fn str_to_lowercase(s: &str) -> (r: String)
    ensures
        r@ == (if all_ascii(s@) {
            s@.map_values(|c: char| ascii_lower(c))
        } else {
            unicode_to_lowercase(s@)
        }),
{
    s.to_lowercase()
}

/// The Unicode `White_Space` characters.
pub open spec fn is_whitespace(c: char) -> bool {
    let n = c as u32;
    ||| 0x09 <= n <= 0x0d
    ||| n == 0x20
    ||| n == 0x85
    ||| n == 0xa0
    ||| n == 0x1680
    ||| 0x2000 <= n <= 0x200a
    ||| n == 0x2028
    ||| n == 0x2029
    ||| n == 0x202f
    ||| n == 0x205f
    ||| n == 0x3000
}

/// The sets of characters that texts are trimmed and split by.
#[derive(Clone, Copy, Debug, PartialEq, Eq, Structural)]
pub enum CharSet {
    /// White space.
    White,
    /// Anything around a word that is no letter, digit or hyphen.
    Edge,
    /// Sentence ends: `.`, `?` and `!`.
    SentenceEnd,
    /// Clause marks: `,`, `;` and `:`.
    ClauseMark,
    /// What may stand before the first word once fillers are gone.
    LeadIn,
}

impl CharSet {
    /// Membership.
    pub open spec fn has(self, c: char) -> bool {
        match self {
            CharSet::White => is_whitespace(c),
            CharSet::Edge => !is_alphanumeric(c) && c != '-',
            CharSet::SentenceEnd => c == '.' || c == '?' || c == '!',
            CharSet::ClauseMark => c == ',' || c == ';' || c == ':',
            CharSet::LeadIn => c == ',' || c == ' ',
        }
    }

    /// Membership, as a test.
    pub fn contains(self, c: char) -> (r: bool)
        ensures
            r == self.has(c),
    {
        match self {
            CharSet::White => {
                let n: u32 = c as u32;
                (0x09 <= n && n <= 0x0d) || n == 0x20 || n == 0x85 || n == 0xa0 || n == 0x1680 || (
                0x2000 <= n && n <= 0x200a) || n == 0x2028 || n == 0x2029 || n == 0x202f || n
                    == 0x205f || n == 0x3000
            },
            CharSet::Edge => !char_is_alphanumeric(c) && c != '-',
            CharSet::SentenceEnd => c == '.' || c == '?' || c == '!',
            CharSet::ClauseMark => c == ',' || c == ';' || c == ':',
            CharSet::LeadIn => c == ',' || c == ' ',
        }
    }
}

/// How many characters at the start of `s` lie in `set`.
pub open spec fn lead(s: Seq<char>, set: CharSet) -> nat
    decreases s.len(),
{
    if s.len() > 0 && set.has(s[0]) {
        1 + lead(s.drop_first(), set)
    } else {
        0
    }
}

/// How many characters at the end of `s` lie in `set`.
pub open spec fn tail(s: Seq<char>, set: CharSet) -> nat
    decreases s.len(),
{
    if s.len() > 0 && set.has(s.last()) {
        1 + tail(s.drop_last(), set)
    } else {
        0
    }
}

/// How many characters at the start of `s` lie outside `set`.
pub open spec fn lead_outside(s: Seq<char>, set: CharSet) -> nat
    decreases s.len(),
{
    if s.len() > 0 && !set.has(s[0]) {
        1 + lead_outside(s.drop_first(), set)
    } else {
        0
    }
}

/// `s` without the characters of `set` at its start.
pub open spec fn trim_start(s: Seq<char>, set: CharSet) -> Seq<char> {
    s.skip(lead(s, set) as int)
}

/// `s` without the characters of `set` at its end.
pub open spec fn trim_end(s: Seq<char>, set: CharSet) -> Seq<char> {
    s.take(s.len() - tail(s, set))
}

/// `s` without the characters of `set` at either end.
pub open spec fn trim(s: Seq<char>, set: CharSet) -> Seq<char> {
    trim_end(trim_start(s, set), set)
}

/// The words of a text: its maximal runs of characters that are not white
/// space, in order.
pub open spec fn words(s: Seq<char>) -> Seq<Seq<char>>
    decreases s.len(),
{
    if s.len() == 0 {
        seq![]
    } else if is_whitespace(s[0]) {
        words(s.drop_first())
    } else {
        let n = lead_outside(s, CharSet::White);
        if n == 0 || n > s.len() {
            seq![]
        } else {
            seq![s.take(n as int)] + words(s.skip(n as int))
        }
    }
}

/// The parts joined by single spaces.
pub open spec fn join(parts: Seq<Seq<char>>) -> Seq<char>
    decreases parts.len(),
{
    if parts.len() == 0 {
        seq![]
    } else if parts.len() == 1 {
        parts[0]
    } else {
        join(parts.drop_last()) + seq![' '] + parts.last()
    }
}

/// `lead` is the length of the longest prefix inside the set.
pub proof fn lemma_lead(s: Seq<char>, set: CharSet, n: int)
    requires
        0 <= n <= s.len(),
        forall|i: int| 0 <= i < n ==> set.has(#[trigger] s[i]),
        n == s.len() || !set.has(s[n]),
    ensures
        lead(s, set) == n,
    decreases s.len(),
{
    if n > 0 {
        let t = s.drop_first();
        lemma_lead(t, set, n - 1);
    }
}

/// `lead` never exceeds the text, its characters are in the set, and what
/// follows is not.
pub proof fn lemma_lead_bounds(s: Seq<char>, set: CharSet)
    ensures
        lead(s, set) <= s.len(),
        forall|i: int| 0 <= i < lead(s, set) ==> set.has(#[trigger] s[i]),
        lead(s, set) < s.len() ==> !set.has(s[lead(s, set) as int]),
    decreases s.len(),
{
    if s.len() > 0 && set.has(s[0]) {
        let t = s.drop_first();
        lemma_lead_bounds(t, set);
        assert forall|i: int| 0 <= i < lead(s, set) implies set.has(#[trigger] s[i]) by {
            if i > 0 {
                assert(t[i - 1] == s[i]);
            }
        }
    }
}

/// `tail` is the length of the longest suffix inside the set.
pub proof fn lemma_tail(s: Seq<char>, set: CharSet, n: int)
    requires
        0 <= n <= s.len(),
        forall|i: int| s.len() - n <= i < s.len() ==> set.has(#[trigger] s[i]),
        n == s.len() || !set.has(s[s.len() - n - 1]),
    ensures
        tail(s, set) == n,
    decreases s.len(),
{
    if n > 0 {
        lemma_tail(s.drop_last(), set, n - 1);
    }
}

/// `tail` never exceeds the text, its characters are in the set, and what
/// precedes them is not.
pub proof fn lemma_tail_bounds(s: Seq<char>, set: CharSet)
    ensures
        tail(s, set) <= s.len(),
        forall|i: int| s.len() - tail(s, set) <= i < s.len() ==> set.has(#[trigger] s[i]),
        tail(s, set) < s.len() ==> !set.has(s[s.len() - tail(s, set) - 1]),
    decreases s.len(),
{
    if s.len() > 0 && set.has(s.last()) {
        let t = s.drop_last();
        lemma_tail_bounds(t, set);
        assert forall|i: int| s.len() - tail(s, set) <= i < s.len() implies set.has(
            #[trigger] s[i],
        ) by {
            if i < s.len() - 1 {
                assert(t[i] == s[i]);
            }
        }
    }
}

/// `lead_outside` is the length of the longest prefix outside the set.
pub proof fn lemma_lead_outside(s: Seq<char>, set: CharSet, n: int)
    requires
        0 <= n <= s.len(),
        forall|i: int| 0 <= i < n ==> !set.has(#[trigger] s[i]),
        n == s.len() || set.has(s[n]),
    ensures
        lead_outside(s, set) == n,
    decreases s.len(),
{
    if n > 0 {
        let t = s.drop_first();
        lemma_lead_outside(t, set, n - 1);
    }
}

/// `lead_outside` never exceeds the text, its characters are outside the set,
/// and what follows is inside.
pub proof fn lemma_lead_outside_bounds(s: Seq<char>, set: CharSet)
    ensures
        lead_outside(s, set) <= s.len(),
        forall|i: int| 0 <= i < lead_outside(s, set) ==> !set.has(#[trigger] s[i]),
        lead_outside(s, set) < s.len() ==> set.has(s[lead_outside(s, set) as int]),
    decreases s.len(),
{
    if s.len() > 0 && !set.has(s[0]) {
        let t = s.drop_first();
        lemma_lead_outside_bounds(t, set);
        assert forall|i: int| 0 <= i < lead_outside(s, set) implies !set.has(#[trigger] s[i]) by {
            if i > 0 {
                assert(t[i - 1] == s[i]);
            }
        }
    }
}

/// Characters of the set at the end of a text change nothing for `trim`.
pub proof fn lemma_trim_ignores_suffix(s: Seq<char>, e: Seq<char>, set: CharSet)
    requires
        forall|i: int| 0 <= i < e.len() ==> set.has(#[trigger] e[i]),
    ensures
        trim(s + e, set) == trim(s, set),
{
    let l = lead(s, set) as int;
    lemma_lead_bounds(s, set);
    let whole = s + e;
    if l < s.len() {
        lemma_lead(whole, set, l);
        let t = s.skip(l);
        assert(whole.skip(l) == t + e);
        lemma_tail_bounds(t, set);
        let k = tail(t, set) as int;
        lemma_tail(t + e, set, e.len() + k);
    } else {
        lemma_lead(whole, set, whole.len() as int);
    }
}

/// Characters of the set at the start of a text change nothing for `trim`.
pub proof fn lemma_trim_ignores_prefix(s: Seq<char>, n: int, set: CharSet)
    requires
        0 <= n <= lead(s, set),
    ensures
        trim(s.skip(n), set) == trim(s, set),
{
    lemma_lead_bounds(s, set);
    let l = lead(s, set) as int;
    let t = s.skip(n);
    lemma_lead(t, set, l - n);
    assert(t.skip(l - n) == s.skip(l));
}

/// A word: not empty, and free of white space.
pub open spec fn is_word(w: Seq<char>) -> bool {
    &&& w.len() > 0
    &&& forall|i: int| 0 <= i < w.len() ==> !is_whitespace(#[trigger] w[i])
}

/// Every part is a word.
pub open spec fn all_words(parts: Seq<Seq<char>>) -> bool {
    forall|i: int| 0 <= i < parts.len() ==> is_word(#[trigger] parts[i])
}

/// Splitting yields words.
pub proof fn lemma_words_are_words(s: Seq<char>)
    ensures
        all_words(words(s)),
    decreases s.len(),
{
    if s.len() > 0 {
        if is_whitespace(s[0]) {
            lemma_words_are_words(s.drop_first());
        } else {
            lemma_lead_outside_bounds(s, CharSet::White);
            let n = lead_outside(s, CharSet::White) as int;
            lemma_words_are_words(s.skip(n));
        }
    }
}

/// Joining, seen from the front.
pub proof fn lemma_join_front(parts: Seq<Seq<char>>)
    requires
        parts.len() >= 2,
    ensures
        join(parts) == parts[0] + seq![' '] + join(parts.drop_first()),
    decreases parts.len(),
{
    let rest = parts.drop_first();
    if parts.len() == 2 {
        assert(join(parts.drop_last()) == parts[0]);
    } else {
        lemma_join_front(parts.drop_last());
        assert(parts.drop_last().drop_first() == rest.drop_last());
        assert(join(parts) == parts[0] + seq![' '] + join(rest.drop_last()) + seq![' ']
            + parts.last());
    }
}

/// Joined words split into the same words again.
pub proof fn lemma_words_of_join(parts: Seq<Seq<char>>)
    requires
        all_words(parts),
    ensures
        words(join(parts)) == parts,
    decreases parts.len(),
{
    if parts.len() > 0 {
        let w = parts[0];
        let rest = parts.drop_first();
        let s = join(parts);
        lemma_words_of_join(rest);
        if parts.len() == 1 {
        } else {
            lemma_join_front(parts);
        }
        lemma_lead_outside(s, CharSet::White, w.len() as int);
        assert(s.take(w.len() as int) == w);
        let t = s.skip(w.len() as int);
        if parts.len() == 1 {
        } else {
            assert(t.drop_first() == join(rest));
        }
        assert(words(t) == rest);
    }
}

/// White space parts words: those before it and those after it are the words
/// of the whole, and no word is empty or joined to another.
pub proof fn words_part_at_white_space(a: Seq<char>, c: char, b: Seq<char>)
    requires
        is_whitespace(c),
    ensures
        words(a.push(c) + b) == words(a) + words(b),
    decreases a.len(),
{
    let s = a.push(c) + b;
    if a.len() == 0 {
        assert(s.drop_first() =~= b);
        assert(words(a) + words(b) =~= words(b));
    } else if is_whitespace(a[0]) {
        words_part_at_white_space(a.drop_first(), c, b);
        assert(s.drop_first() =~= a.drop_first().push(c) + b);
    } else {
        let n = lead_outside(a, CharSet::White) as int;
        lemma_lead_outside_bounds(a, CharSet::White);
        assert(s[n] == if n < a.len() { a[n] } else { c });
        lemma_lead_outside(s, CharSet::White, n);
        assert(n > 0);
        assert(s.take(n) =~= a.take(n));
        let rest = a.skip(n);
        words_part_at_white_space(rest, c, b);
        assert(s.skip(n) =~= rest.push(c) + b);
        assert(words(s) =~= seq![a.take(n)] + words(s.skip(n)));
        assert(words(s) =~= words(a) + words(b));
    }
}

/// A text without white space is one word, unless it is empty.
pub proof fn unbroken_text_is_one_word(w: Seq<char>)
    ensures
        is_word(w) ==> words(w) == seq![w],
        w.len() == 0 ==> words(w).len() == 0,
{
    if is_word(w) {
        lemma_words_of_join(seq![w]);
    }
}

/// Joined parts stand one behind the other with one space between them.
pub proof fn joined_parts_are_spaced(a: Seq<Seq<char>>, b: Seq<Seq<char>>)
    ensures
        a.len() > 0 && b.len() > 0 ==> join(a + b) == join(a).push(' ') + join(b),
        a.len() == 0 ==> join(a).len() == 0,
        a.len() == 1 ==> join(a) == a[0],
    decreases b.len(),
{
    if a.len() > 0 && b.len() > 0 {
        let whole = a + b;
        let front = b.drop_last();
        assert(whole.drop_last() =~= a + front);
        if b.len() == 1 {
            assert(a + front =~= a);
            assert(join(whole) =~= join(a).push(' ') + join(b));
        } else {
            joined_parts_are_spaced(a, front);
            assert(join(whole) =~= join(a).push(' ') + join(b));
        }
    }
}

/// Trimming cuts characters of the set from both ends and nothing else, and
/// leaves none of them at either end.
pub proof fn trimming_cuts_the_ends(s: Seq<char>, set: CharSet) -> (cut: (Seq<char>, Seq<char>))
    ensures
        s == cut.0 + trim(s, set) + cut.1,
        forall|i: int| 0 <= i < cut.0.len() ==> set.has(#[trigger] cut.0[i]),
        forall|i: int| 0 <= i < cut.1.len() ==> set.has(#[trigger] cut.1[i]),
        trim(s, set).len() > 0 ==> !set.has(trim(s, set)[0]) && !set.has(trim(s, set).last()),
{
    lemma_lead_bounds(s, set);
    let l = lead(s, set) as int;
    let t = s.skip(l);
    lemma_tail_bounds(t, set);
    let k = tail(t, set) as int;
    let r = t.take(t.len() - k);
    let back = t.skip(t.len() - k);
    assert(s =~= s.take(l) + r + back);
    if r.len() > 0 {
        assert(r[0] == s[l]);
    }
    (s.take(l), back)
}

/// Which characters the sets hold.
pub proof fn sets_hold_these(c: char)
    ensures
        CharSet::SentenceEnd.has(c) <==> c == '.' || c == '?' || c == '!',
        CharSet::ClauseMark.has(c) <==> c == ',' || c == ';' || c == ':',
        CharSet::LeadIn.has(c) <==> c == ',' || c == ' ',
        CharSet::Edge.has(c) <==> !is_alphanumeric(c) && c != '-',
        is_ascii(c) ==> (CharSet::White.has(c) <==> c == ' ' || c == '\t' || c == '\n' || c
            == '\x0b' || c == '\x0c' || c == '\r'),
        is_ascii(c) ==> (is_alphanumeric(c) <==> 'a' <= c <= 'z' || 'A' <= c <= 'Z' || '0' <= c
            <= '9'),
{
}

/// Texts are ordered by the first character in which they differ, or by their
/// lengths where one begins with the other.
pub proof fn texts_are_ordered_by_their_first_difference(a: Seq<char>, b: Seq<char>, n: int)
    requires
        0 <= n <= a.len(),
        n <= b.len(),
        a.take(n) == b.take(n),
    ensures
        n < a.len() && n < b.len() && a[n] != b[n] ==> (text_lt(a, b) <==> a[n] < b[n]),
        n == a.len() ==> (text_lt(a, b) <==> n < b.len()),
        n == b.len() ==> !text_lt(a, b),
    decreases n,
{
    if n > 0 {
        assert(a[0] == a.take(n)[0] && b[0] == b.take(n)[0]);
        let (x, y) = (a.drop_first(), b.drop_first());
        assert(x.take(n - 1) =~= a.take(n).drop_first());
        assert(y.take(n - 1) =~= b.take(n).drop_first());
        texts_are_ordered_by_their_first_difference(x, y, n - 1);
        if n < a.len() {
            assert(x[n - 1] == a[n]);
        }
        if n < b.len() {
            assert(y[n - 1] == b[n]);
        }
    }
}

/// The characters of a string.
pub fn chars_of(s: &str) -> (r: Vec<char>)
    ensures
        r@ == s@,
{
    let mut v: Vec<char> = Vec::new();
    for c in it: s.chars()
        invariant
            it.seq() == s@,
            v@ == s@.take(it.index() as int),
    {
        v.push(c);
    }
    v
}

/// The string made of some characters.
pub fn string_of(c: &Vec<char>) -> (r: String)
    ensures
        r@ == c@,
{
    substring(c, 0, c.len())
}

/// The string made of the characters from `from` up to `to`.
pub fn substring(c: &Vec<char>, from: usize, to: usize) -> (r: String)
    requires
        from <= to <= c@.len(),
    ensures
        r@ == c@.subrange(from as int, to as int),
{
    let mut s = String::new();
    let mut i: usize = from;
    while i < to
        invariant
            from <= i <= to <= c@.len(),
            s@ == c@.subrange(from as int, i as int),
        decreases to - i,
    {
        s.push(c[i]);
        i = i + 1;
    }
    s
}

/// The characters from `from` up to `to`.
pub fn slice_of(c: &Vec<char>, from: usize, to: usize) -> (r: Vec<char>)
    requires
        from <= to <= c@.len(),
    ensures
        r@ == c@.subrange(from as int, to as int),
{
    let mut s: Vec<char> = Vec::new();
    let mut i: usize = from;
    while i < to
        invariant
            from <= i <= to <= c@.len(),
            s@ == c@.subrange(from as int, i as int),
        decreases to - i,
    {
        s.push(c[i]);
        i = i + 1;
    }
    s
}

/// Whether two strings hold the same characters.
pub fn same_text(a: &str, b: &str) -> (r: bool)
    ensures
        r == (a@ == b@),
{
    a.to_owned() == b.to_owned()
}

/// One string followed by another.
pub fn concat(a: &str, b: &str) -> (r: String)
    ensures
        r@ == a@ + b@,
{
    let mut s = a.to_owned();
    s.append(b);
    s
}

/// Length of the longest prefix inside `set`.
pub fn lead_len(c: &Vec<char>, set: CharSet) -> (n: usize)
    ensures
        n == lead(c@, set),
        n <= c@.len(),
{
    let mut n: usize = 0;
    while n < c.len() && set.contains(c[n])
        invariant
            n <= c@.len(),
            forall|i: int| 0 <= i < n ==> set.has(#[trigger] c@[i]),
        decreases c@.len() - n,
    {
        n = n + 1;
    }
    proof {
        lemma_lead(c@, set, n as int);
    }
    n
}

/// Length of the longest suffix inside `set`.
pub fn tail_len(c: &Vec<char>, set: CharSet) -> (n: usize)
    ensures
        n == tail(c@, set),
        n <= c@.len(),
{
    let mut n: usize = 0;
    while n < c.len() && set.contains(c[c.len() - n - 1])
        invariant
            n <= c@.len(),
            forall|i: int| c@.len() - n <= i < c@.len() ==> set.has(#[trigger] c@[i]),
        decreases c@.len() - n,
    {
        n = n + 1;
    }
    proof {
        lemma_tail(c@, set, n as int);
    }
    n
}

/// The characters without those of `set` at the start.
pub fn trimmed_start(c: &Vec<char>, set: CharSet) -> (r: Vec<char>)
    ensures
        r@ == trim_start(c@, set),
{
    let n = lead_len(c, set);
    slice_of(c, n, c.len())
}

/// The characters without those of `set` at the end.
pub fn trimmed_end(c: &Vec<char>, set: CharSet) -> (r: Vec<char>)
    ensures
        r@ == trim_end(c@, set),
{
    let n = tail_len(c, set);
    slice_of(c, 0, c.len() - n)
}

/// The characters without those of `set` at either end.
pub fn trimmed(c: &Vec<char>, set: CharSet) -> (r: Vec<char>)
    ensures
        r@ == trim(c@, set),
{
    trimmed_end(&trimmed_start(c, set), set)
}

/// The text without white space at either end.
pub fn trim_text(s: &str) -> (r: String)
    ensures
        r@ == trim(s@, CharSet::White),
{
    string_of(&trimmed(&chars_of(s), CharSet::White))
}

/// The order of texts by their characters, first difference first. UTF-8
/// orders its bytes the same way.
pub open spec fn text_lt(a: Seq<char>, b: Seq<char>) -> bool
    decreases a.len(),
{
    if b.len() == 0 {
        false
    } else if a.len() == 0 {
        true
    } else if a[0] == b[0] {
        text_lt(a.drop_first(), b.drop_first())
    } else {
        a[0] < b[0]
    }
}

/// No text comes before itself.
pub proof fn lemma_text_lt_irreflexive(a: Seq<char>)
    ensures
        !text_lt(a, a),
    decreases a.len(),
{
    if a.len() > 0 {
        lemma_text_lt_irreflexive(a.drop_first());
    }
}

/// The order of texts is transitive.
pub proof fn lemma_text_lt_transitive(a: Seq<char>, b: Seq<char>, c: Seq<char>)
    requires
        text_lt(a, b),
        text_lt(b, c),
    ensures
        text_lt(a, c),
    decreases a.len(),
{
    if a.len() > 0 && a[0] == b[0] && b[0] == c[0] {
        lemma_text_lt_transitive(a.drop_first(), b.drop_first(), c.drop_first());
    }
}

/// Two different texts are ordered one way or the other.
pub proof fn lemma_text_lt_total(a: Seq<char>, b: Seq<char>)
    ensures
        text_lt(a, b) || text_lt(b, a) || a == b,
    decreases a.len(),
{
    if a.len() > 0 && b.len() > 0 && a[0] == b[0] {
        lemma_text_lt_total(a.drop_first(), b.drop_first());
        if a.drop_first() == b.drop_first() {
            assert(a == seq![a[0]] + a.drop_first());
        }
    } else if a.len() == 0 && b.len() == 0 {
    }
}

/// Whether `a` comes before `b`.
pub fn text_before(a: &str, b: &str) -> (r: bool)
    ensures
        r == text_lt(a@, b@),
{
    let x = chars_of(a);
    let y = chars_of(b);
    let mut i: usize = 0;
    assert(x@.skip(0) == x@ && y@.skip(0) == y@);
    while i < x.len() && i < y.len() && x[i] == y[i]
        invariant
            i <= x@.len(),
            i <= y@.len(),
            text_lt(x@, y@) == text_lt(x@.skip(i as int), y@.skip(i as int)),
        decreases x@.len() - i,
    {
        assert(x@.skip(i as int).drop_first() == x@.skip(i + 1));
        assert(y@.skip(i as int).drop_first() == y@.skip(i + 1));
        i = i + 1;
    }
    if i >= y.len() {
        false
    } else if i >= x.len() {
        true
    } else {
        x[i] < y[i]
    }
}

/// The characters of several words.
pub open spec fn views(v: Seq<Vec<char>>) -> Seq<Seq<char>> {
    v.map_values(|w: Vec<char>| w@)
}

/// Splits a text into its words.
pub fn split_words(c: &Vec<char>) -> (r: Vec<Vec<char>>)
    ensures
        views(r@) == words(c@),
{
    let mut out: Vec<Vec<char>> = Vec::new();
    let mut i: usize = 0;
    assert(c@.skip(0) == c@);
    while i < c.len()
        invariant
            i <= c@.len(),
            views(out@) + words(c@.skip(i as int)) == words(c@),
        decreases c@.len() - i,
    {
        let ghost rest = c@.skip(i as int);
        if CharSet::White.contains(c[i]) {
            assert(rest.drop_first() == c@.skip(i + 1));
            i = i + 1;
        } else {
            let mut j: usize = i + 1;
            while j < c.len() && !CharSet::White.contains(c[j])
                invariant
                    i < j <= c@.len(),
                    forall|k: int| i <= k < j ==> !CharSet::White.has(#[trigger] c@[k]),
                decreases c@.len() - j,
            {
                j = j + 1;
            }
            let ghost n = (j - i) as int;
            proof {
                lemma_lead_outside(rest, CharSet::White, n);
                assert(rest.take(n) == c@.subrange(i as int, j as int));
                assert(rest.skip(n) == c@.skip(j as int));
            }
            let word = slice_of(c, i, j);
            let ghost before = views(out@);
            out.push(word);
            proof {
                assert(before.push(word@) + words(c@.skip(j as int)) == before + (seq![word@]
                    + words(c@.skip(j as int))));
            }
            i = j;
        }
    }
    out
}

/// Joins words with single spaces.
pub fn join_words(parts: &Vec<Vec<char>>) -> (r: Vec<char>)
    ensures
        r@ == join(views(parts@)),
{
    let mut out: Vec<char> = Vec::new();
    let mut i: usize = 0;
    while i < parts.len()
        invariant
            i <= parts@.len(),
            out@ == join(views(parts@).take(i as int)),
        decreases parts@.len() - i,
    {
        let ghost prefix = views(parts@).take(i + 1);
        assert(prefix.drop_last() == views(parts@).take(i as int));
        if i > 0 {
            out.push(' ');
        }
        let ghost before = out@;
        let mut k: usize = 0;
        while k < parts[i].len()
            invariant
                i < parts@.len(),
                k <= parts@[i as int]@.len(),
                out@ == before + parts@[i as int]@.take(k as int),
            decreases parts@[i as int]@.len() - k,
        {
            out.push(parts[i][k]);
            k = k + 1;
        }
        i = i + 1;
    }
    assert(views(parts@).take(i as int) == views(parts@));
    out
}

} // verus!

//! Case-insensitive whole-word replacements, longest phrase first.

use vstd::prelude::*;

use crate::replacements;
use crate::replacements::Replacements;
use crate::text;
use crate::text::{char_is_alphanumeric, chars_of, concat, trim_text, CharSet};

verus! {

/// A phrase of up to so many characters always has an expression.
pub const SURE_CHARS: usize = 1_000;

#[verifier::external_type_specification]
#[verifier::external_body]
pub struct ExRegex(regex::Regex);

/// The characters that mean something in a regular expression.
pub open spec fn is_meta(c: char) -> bool {
    ||| c == '\\'
    ||| c == '.'
    ||| c == '+'
    ||| c == '*'
    ||| c == '?'
    ||| c == '('
    ||| c == ')'
    ||| c == '|'
    ||| c == '['
    ||| c == ']'
    ||| c == '{'
    ||| c == '}'
    ||| c == '^'
    ||| c == '$'
    ||| c == '#'
    ||| c == '&'
    ||| c == '-'
    ||| c == '~'
}

/// A text with a backslash before every meta character.
pub open spec fn escaped(s: Seq<char>) -> Seq<char>
    decreases s.len(),
{
    if s.len() == 0 {
        seq![]
    } else if is_meta(s.last()) {
        escaped(s.drop_last()).push('\\').push(s.last())
    } else {
        escaped(s.drop_last()).push(s.last())
    }
}

/// A character that a phrase's edge is told by: a letter, digit or underscore.
pub open spec fn is_phrase_char(c: char) -> bool {
    text::is_alphanumeric(c) || c == '_'
}

/// The word edge assertion of regular expressions.
pub open spec fn edge_mark() -> Seq<char> {
    seq!['\\', 'b']
}

/// The regular expression for a phrase. A word edge is only asked for on a
/// side where the phrase has a word character, so that "c++" can match.
pub open spec fn pattern_of(phrase: Seq<char>) -> Seq<char> {
    (if phrase.len() > 0 && is_phrase_char(phrase[0]) {
        edge_mark()
    } else {
        seq![]
    }) + escaped(phrase) + (if phrase.len() > 0 && is_phrase_char(phrase.last()) {
        edge_mark()
    } else {
        seq![]
    })
}

/// Whether a character beyond ASCII is a word character (`\w`) of regular
/// expressions.
pub uninterp spec fn unicode_word_char(c: char) -> bool;

/// Whether two characters, not both ASCII, match each other when case is
/// ignored.
pub uninterp spec fn unicode_same_letter(a: char, b: char) -> bool;

/// A word character of regular expressions.
pub open spec fn is_word_char(c: char) -> bool {
    if text::is_ascii(c) {
        text::is_ascii_alphanumeric(c) || c == '_'
    } else {
        unicode_word_char(c)
    }
}

/// Whether a character of a phrase matches a character of a text, case
/// ignored.
pub open spec fn same_letter(a: char, b: char) -> bool {
    if text::is_ascii(a) && text::is_ascii(b) {
        text::ascii_lower(a) == text::ascii_lower(b)
    } else {
        unicode_same_letter(a, b)
    }
}

/// Whether a word begins or ends between the characters `i - 1` and `i`,
/// where `word` tells the word characters.
pub open spec fn edge_by(s: Seq<char>, i: int, word: spec_fn(char) -> bool) -> bool {
    let left = 0 < i && word(s[i - 1]);
    let right = i < s.len() && word(s[i]);
    left != right
}

/// Whether a phrase stands in a text at place `i`: its characters, as `same`
/// compares them, with a word edge on each side where it has a word character.
pub open spec fn occurs_by(
    s: Seq<char>,
    phrase: Seq<char>,
    i: int,
    word: spec_fn(char) -> bool,
    same: spec_fn(char, char) -> bool,
) -> bool {
    &&& 0 <= i
    &&& i + phrase.len() <= s.len()
    &&& forall|k: int| 0 <= k < phrase.len() ==> same(#[trigger] phrase[k], s[i + k])
    &&& is_phrase_char(phrase[0]) ==> edge_by(s, i, word)
    &&& is_phrase_char(phrase.last()) ==> edge_by(s, i + phrase.len(), word)
}

/// The text from place `i` on, with each occurrence of the phrase, taken from
/// left to right without overlap, replaced.
pub open spec fn replaced_by(
    s: Seq<char>,
    phrase: Seq<char>,
    to: Seq<char>,
    i: int,
    word: spec_fn(char) -> bool,
    same: spec_fn(char, char) -> bool,
) -> Seq<char>
    decreases s.len() - i,
{
    if i < 0 || i >= s.len() || phrase.len() == 0 {
        seq![]
    } else if occurs_by(s, phrase, i, word, same) {
        to + replaced_by(s, phrase, to, i + phrase.len(), word, same)
    } else {
        seq![s[i]] + replaced_by(s, phrase, to, i + 1, word, same)
    }
}

/// Whether a phrase stands in a text at place `i`: its characters, case
/// ignored, with a word edge on each side where it has a word character.
pub open spec fn occurs_at(s: Seq<char>, phrase: Seq<char>, i: int) -> bool {
    occurs_by(s, phrase, i, |c: char| is_word_char(c), |a: char, b: char| same_letter(a, b))
}

/// The text from place `i` on with every occurrence of the phrase replaced.
pub open spec fn replaced_from(
    s: Seq<char>,
    phrase: Seq<char>,
    to: Seq<char>,
    i: int,
) -> Seq<char> {
    replaced_by(s, phrase, to, i, |c: char| is_word_char(c), |a: char, b: char| same_letter(a, b))
}

/// The text with every occurrence of the phrase replaced. The new text is
/// inserted as it is.
pub open spec fn replaced(s: Seq<char>, phrase: Seq<char>, to: Seq<char>) -> Seq<char> {
    replaced_from(s, phrase, to, 0)
}

/// Replacing depends on the two tests only through their answers.
proof fn lemma_replaced_by(
    s: Seq<char>,
    phrase: Seq<char>,
    to: Seq<char>,
    i: int,
    word: spec_fn(char) -> bool,
    same: spec_fn(char, char) -> bool,
)
    requires
        forall|c: char| #[trigger] word(c) == is_word_char(c),
        forall|a: char, b: char| #[trigger] same(a, b) == same_letter(a, b),
    ensures
        replaced_by(s, phrase, to, i, word, same) == replaced_from(s, phrase, to, i),
    decreases s.len() - i,
{
    if 0 <= i < s.len() && phrase.len() > 0 {
        if i + phrase.len() <= s.len() {
            lemma_replaced_by(s, phrase, to, i + phrase.len(), word, same);
        }
        lemma_replaced_by(s, phrase, to, i + 1, word, same);
    }
}

/// The pattern that a regular expression was built from, if it was built to
/// ignore case and otherwise with the builder's defaults.
pub uninterp spec fn ignoring_case_source(re: regex::Regex) -> Option<Seq<char>>;

/// Calls `regex::escape`, which puts a backslash before every meta character
/// and leaves the others alone.
#[verifier::external_body]
fn regex_escape(s: &str) -> (r: String)
    ensures
        r@ == escaped(s@),
{
    regex::escape(s)
}

/// Calls `RegexBuilder::build` with case ignored. What it builds comes from
/// the pattern it was given. The pattern of a phrase always parses, so the one
/// thing that can refuse it is the builder's limit of ten mebibytes on the
/// automaton, which has a few dozen small states per character at most: a
/// phrase of up to `SURE_CHARS` characters always builds. From which length on
/// a longer one does not is unsaid, because it depends on the size of a state
/// in the machine's memory.
#[verifier::external_body]
fn regex_build(pattern: &str) -> (r: Option<regex::Regex>)
    ensures
        r matches Some(re) ==> ignoring_case_source(re) == Some(pattern@),
        forall|phrase: Seq<char>|
            0 < phrase.len() <= SURE_CHARS && pattern@ == #[trigger] pattern_of(phrase) ==> r
                is Some,
{
    regex::RegexBuilder::new(pattern).case_insensitive(true).build().ok()
}

/// Calls `Regex::replace_all` with a literal replacement. Of an expression
/// that was built, case ignored, from the pattern of a phrase: each leftmost
/// occurrence of the phrase, without overlap, gives way to the replacement,
/// and all else stays. Which characters beyond ASCII are word characters, and
/// which match each other when case is ignored, is the crate's tables', and
/// has only a name.
#[verifier::external_body]
fn regex_replace_all(re: &regex::Regex, s: &str, to: &str) -> (r: String)
    ensures
        forall|phrase: Seq<char>|
            phrase.len() > 0 && ignoring_case_source(*re) == Some(#[trigger] pattern_of(phrase))
                ==> r@ == replaced_by(
                s@,
                phrase,
                to@,
                0,
                |c: char|
                    if text::is_ascii(c) {
                        text::is_ascii_alphanumeric(c) || c == '_'
                    } else {
                        unicode_word_char(c)
                    },
                |a: char, b: char|
                    if text::is_ascii(a) && text::is_ascii(b) {
                        text::ascii_lower(a) == text::ascii_lower(b)
                    } else {
                        unicode_same_letter(a, b)
                    },
            ),
{
    re.replace_all(s, regex::NoExpand(to)).into_owned()
}

/// The length by which phrases are ordered: that of their UTF-8 form.
pub open spec fn byte_len(s: Seq<char>) -> usize {
    vstd::utf8::encode_utf8(s).len() as usize
}

/// Longer phrases first, and among those of one length ascending.
pub open spec fn goes_first(a: (Seq<char>, Seq<char>), b: (Seq<char>, Seq<char>)) -> bool {
    byte_len(a.0) > byte_len(b.0) || (byte_len(a.0) == byte_len(b.0) && text::text_lt(a.0, b.0))
}

/// Every entry goes before all that follow it.
pub open spec fn longest_first(entries: Seq<(Seq<char>, Seq<char>)>) -> bool {
    forall|i: int, j: int|
        0 <= i < j < entries.len() ==> goes_first(#[trigger] entries[i], #[trigger] entries[j])
}

/// The rules that entries give: their phrases without the white space around
/// them, blank ones left out.
pub open spec fn rules_of(entries: Seq<(Seq<char>, Seq<char>)>) -> Seq<(Seq<char>, Seq<char>)>
    decreases entries.len(),
{
    if entries.len() == 0 {
        seq![]
    } else {
        let front = rules_of(entries.drop_last());
        let phrase = text::trim(entries.last().0, CharSet::White);
        if phrase.len() == 0 {
            front
        } else {
            front.push((phrase, entries.last().1))
        }
    }
}

/// Some of the rules, in the same order.
pub open spec fn chosen(
    rules: Seq<(Seq<char>, Seq<char>)>,
    built: Seq<bool>,
) -> Seq<(Seq<char>, Seq<char>)>
    decreases rules.len(),
{
    if rules.len() == 0 {
        seq![]
    } else if built[rules.len() - 1] {
        chosen(rules.drop_last(), built).push(rules.last())
    } else {
        chosen(rules.drop_last(), built)
    }
}

/// The rules that a replacer has for some replacements: longest phrase first,
/// those of all phrases but of long ones whose expressions could not be built.
pub open spec fn rules_for(
    rules: Seq<(Seq<char>, Seq<char>)>,
    entries: Seq<(Seq<char>, Seq<char>)>,
) -> bool {
    exists|sorted: Seq<(Seq<char>, Seq<char>)>, built: Seq<bool>|
        {
            &&& #[trigger] longest_first(sorted)
            &&& sorted.to_multiset() == entries.to_multiset()
            &&& built.len() == rules_of(sorted).len()
            &&& forall|i: int|
                0 <= i < built.len() && rules_of(sorted)[i].0.len() <= SURE_CHARS
                    ==> #[trigger] built[i]
            &&& rules == #[trigger] chosen(rules_of(sorted), built)
        }
}

/// The text after every rule, in order.
pub open spec fn applied(rules: Seq<(Seq<char>, Seq<char>)>, s: Seq<char>) -> Seq<char>
    decreases rules.len(),
{
    if rules.len() == 0 {
        s
    } else {
        replaced(applied(rules.drop_last(), s), rules.last().0, rules.last().1)
    }
}

/// One phrase, its expression, and what is typed in its place.
struct Rule {
    re: regex::Regex,
    phrase: String,
    to: String,
}

impl Rule {
    spec fn valid(self) -> bool {
        &&& self.phrase@.len() > 0
        &&& ignoring_case_source(self.re) == Some(pattern_of(self.phrase@))
    }
}

/// The characters of the rules.
spec fn rule_views(rules: Seq<Rule>) -> Seq<(Seq<char>, Seq<char>)> {
    rules.map_values(|r: Rule| (r.phrase@, r.to@))
}

/// Case-insensitive whole-word replacements, longest phrase first.
pub struct Replacer {
    rules: Vec<Rule>,
}

impl View for Replacer {
    type V = Seq<(Seq<char>, Seq<char>)>;

    closed spec fn view(&self) -> Seq<(Seq<char>, Seq<char>)> {
        rule_views(self.rules@)
    }
}

/// The entries sorted, longest phrase first.
pub fn sort_longest_first(map: &Replacements) -> (r: Vec<(String, String)>)
    ensures
        longest_first(replacements::pair_views(r@)),
        replacements::pair_views(r@).to_multiset() == map.entries().to_multiset(),
{
    proof {
        use_type_invariant(map);
    }
    let ghost entries = map.entries();
    let mut out: Vec<(String, String)> = Vec::new();
    let mut n: usize = 0;
    assert(replacements::pair_views(out@) == entries.take(0));
    while n < map.len()
        invariant
            n <= entries.len(),
            entries == map.entries(),
            replacements::ascending(entries),
            longest_first(replacements::pair_views(out@)),
            replacements::pair_views(out@).to_multiset() == entries.take(n as int).to_multiset(),
        decreases entries.len() - n,
    {
        let (from, to) = map.entry(n);
        let ghost sorted = replacements::pair_views(out@);
        let ghost e = entries[n as int];
        let mut at: usize = 0;
        while at < out.len() && out[at].0.as_str().len() >= from.len()
            invariant
                at <= out@.len(),
                sorted == replacements::pair_views(out@),
                from@ == e.0,
                forall|i: int| 0 <= i < at ==> byte_len((#[trigger] sorted[i]).0) >= byte_len(e.0),
            decreases out@.len() - at,
        {
            at = at + 1;
        }
        proof {
            broadcast use vstd::seq_lib::group_to_multiset_ensures;

            let grown = sorted.insert(at as int, e);
            if at < out@.len() {
                assert(sorted[at as int].0 == out@[at as int].0@);
            }
            assert forall|i: int| 0 <= i < sorted.len() implies text::text_lt(
                (#[trigger] sorted[i]).0,
                e.0,
            ) by {
                assert(sorted.to_multiset().count(sorted[i]) > 0);
            }
            assert forall|i: int, j: int| 0 <= i < j < grown.len() implies goes_first(
                #[trigger] grown[i],
                #[trigger] grown[j],
            ) by {
                if i == at {
                } else if j == at {
                } else {
                    let oi = if i < at { i } else { i - 1 };
                    let oj = if j < at { j } else { j - 1 };
                }
            }
            assert(entries.take(n + 1) == entries.take(n as int).push(e));
        }
        out.insert(at, (from.to_owned(), to.to_owned()));
        assert(replacements::pair_views(out@) == sorted.insert(at as int, e));
        n = n + 1;
    }
    assert(entries.take(n as int) == entries);
    out
}

/// The regular expression for a phrase.
pub fn phrase_pattern(phrase: &str) -> (r: String)
    ensures
        r@ == pattern_of(phrase@),
{
    let chars = chars_of(phrase);
    let middle = regex_escape(phrase);
    let n = chars.len();
    proof {
        reveal_strlit("\\b");
        reveal_strlit("");
    }
    let front = if n > 0 && (char_is_alphanumeric(chars[0]) || chars[0] == '_') {
        "\\b"
    } else {
        ""
    };
    let back = if n > 0 && (char_is_alphanumeric(chars[n - 1]) || chars[n - 1] == '_') {
        "\\b"
    } else {
        ""
    };
    concat(concat(front, middle.as_str()).as_str(), back)
}

/// The rules of the sorted entries, as phrases and replacements.
pub fn phrases_of(sorted: &Vec<(String, String)>) -> (r: Vec<(String, String)>)
    ensures
        replacements::pair_views(r@) == rules_of(replacements::pair_views(sorted@)),
{
    let ghost entries = replacements::pair_views(sorted@);
    let mut out: Vec<(String, String)> = Vec::new();
    let mut i: usize = 0;
    while i < sorted.len()
        invariant
            i <= sorted@.len(),
            entries == replacements::pair_views(sorted@),
            replacements::pair_views(out@) == rules_of(entries.take(i as int)),
        decreases sorted@.len() - i,
    {
        assert(entries.take(i + 1).drop_last() == entries.take(i as int));
        let phrase = trim_text(sorted[i].0.as_str());
        if !phrase.as_str().is_empty() {
            let to = sorted[i].1.clone();
            out.push((phrase, to));
        }
        i = i + 1;
    }
    assert(entries.take(i as int) == entries);
    out
}

/// Every rule's expression is that of its phrase.
spec fn all_valid(rules: Seq<Rule>) -> bool {
    forall|i: int| 0 <= i < rules.len() ==> (#[trigger] rules[i]).valid()
}

/// Keeps a rule whose expression was built, and drops one whose expression was
/// not.
fn add_rule(rules: &mut Vec<Rule>, built: Option<regex::Regex>, phrase: String, to: String)
    requires
        all_valid(old(rules)@),
        phrase@.len() > 0,
        built matches Some(re) ==> ignoring_case_source(re) == Some(pattern_of(phrase@)),
    ensures
        all_valid(final(rules)@),
        rule_views(final(rules)@) == if built is Some {
            rule_views(old(rules)@).push((phrase@, to@))
        } else {
            rule_views(old(rules)@)
        },
{
    if let Some(re) = built {
        rules.push(Rule { re, phrase, to });
    }
}

impl Replacer {
    spec fn valid(self) -> bool {
        all_valid(self.rules@)
    }

    #[verifier::type_invariant]
    spec fn well_formed(self) -> bool {
        self.valid()
    }

    /// The rules of a map, longest phrase first. A long phrase whose
    /// expression the regular expression crate refuses to build is left out.
    pub fn new(map: &Replacements) -> (r: Replacer)
        ensures
            rules_for(r@, map.entries()),
    {
        let sorted = sort_longest_first(map);
        let phrases = phrases_of(&sorted);
        let ghost all = replacements::pair_views(phrases@);
        let mut rules: Vec<Rule> = Vec::new();
        let ghost mut built: Seq<bool> = seq![];
        let mut i: usize = 0;
        proof {
            lemma_rules_not_blank(replacements::pair_views(sorted@));
        }
        while i < phrases.len()
            invariant
                i <= phrases@.len(),
                all == replacements::pair_views(phrases@),
                built.len() == i,
                forall|k: int| 0 <= k < all.len() ==> (#[trigger] all[k]).0.len() > 0,
                forall|k: int|
                    0 <= k < built.len() && all[k].0.len() <= SURE_CHARS ==> #[trigger] built[k],
                all_valid(rules@),
                rule_views(rules@) == chosen(all.take(i as int), built),
            decreases phrases@.len() - i,
        {
            let ghost next = all.take(i + 1);
            let pattern = phrase_pattern(phrases[i].0.as_str());
            let built_re = regex_build(pattern.as_str());
            let ghost grown = built.push(built_re is Some);
            proof {
                assert(next.drop_last() == all.take(i as int));
                assert(next.last() == all[i as int]);
                assert(all[i as int].0 == phrases@[i as int].0@);
                lemma_chosen_prefix(all.take(i as int), built, grown);
            }
            add_rule(&mut rules, built_re, phrases[i].0.clone(), phrases[i].1.clone());
            proof {
                built = grown;
            }
            i = i + 1;
        }
        assert(all.take(i as int) == all);
        let r = Replacer { rules };
        assert(longest_first(replacements::pair_views(sorted@)));
        assert(r@ == chosen(rules_of(replacements::pair_views(sorted@)), built));
        r
    }

    /// The text with every rule applied, in order.
    pub fn apply(&self, s: &str) -> (r: String)
        ensures
            r@ == applied(self@, s@),
    {
        proof {
            use_type_invariant(self);
        }
        let mut out = s.to_owned();
        let mut i: usize = 0;
        while i < self.rules.len()
            invariant
                i <= self.rules@.len(),
                self.valid(),
                self@ == rule_views(self.rules@),
                out@ == applied(self@.take(i as int), s@),
            decreases self.rules@.len() - i,
        {
            let rule = &self.rules[i];
            assert(self@.take(i + 1).drop_last() == self@.take(i as int));
            let ghost before = out@;
            out = regex_replace_all(&rule.re, out.as_str(), rule.to.as_str());
            proof {
                assert forall|word: spec_fn(char) -> bool, same: spec_fn(char, char) -> bool|
                    (forall|c: char| #[trigger] word(c) == is_word_char(c)) && (forall|
                        a: char,
                        b: char,
                    | #[trigger] same(a, b) == same_letter(a, b)) implies #[trigger] replaced_by(
                    before,
                    rule.phrase@,
                    rule.to@,
                    0,
                    word,
                    same,
                ) == replaced(before, rule.phrase@, rule.to@) by {
                    lemma_replaced_by(before, rule.phrase@, rule.to@, 0, word, same);
                }
            }
            i = i + 1;
        }
        assert(self@.take(i as int) == self@);
        out
    }
}

/// More answers beyond the rules do not change which rules are chosen.
proof fn lemma_chosen_prefix(
    rules: Seq<(Seq<char>, Seq<char>)>,
    built: Seq<bool>,
    grown: Seq<bool>,
)
    requires
        rules.len() <= built.len() <= grown.len(),
        forall|i: int| 0 <= i < built.len() ==> built[i] == #[trigger] grown[i],
    ensures
        chosen(rules, built) == chosen(rules, grown),
    decreases rules.len(),
{
    if rules.len() > 0 {
        lemma_chosen_prefix(rules.drop_last(), built, grown);
    }
}

/// No rule has a blank phrase.
pub proof fn lemma_rules_not_blank(entries: Seq<(Seq<char>, Seq<char>)>)
    ensures
        forall|k: int|
            0 <= k < rules_of(entries).len() ==> (#[trigger] rules_of(entries)[k]).0.len() > 0,
    decreases entries.len(),
{
    if entries.len() > 0 {
        lemma_rules_not_blank(entries.drop_last());
        let front = rules_of(entries.drop_last());
    }
}

/// A rule whose expression was built is chosen.
proof fn lemma_chosen_contains(rules: Seq<(Seq<char>, Seq<char>)>, built: Seq<bool>, k: int)
    requires
        0 <= k < rules.len() <= built.len(),
        built[k],
    ensures
        chosen(rules, built).contains(rules[k]),
    decreases rules.len(),
{
    let front = chosen(rules.drop_last(), built);
    let all = chosen(rules, built);
    if k == rules.len() - 1 {
        assert(all[all.len() - 1] == rules[k]);
    } else {
        lemma_chosen_contains(rules.drop_last(), built, k);
        let j = front.index_of(rules[k]);
        assert(all[j] == rules[k]);
    }
}

/// An entry whose phrase is not blank gives a rule.
proof fn lemma_rules_contain(entries: Seq<(Seq<char>, Seq<char>)>, k: int)
    requires
        0 <= k < entries.len(),
        text::trim(entries[k].0, CharSet::White).len() > 0,
    ensures
        rules_of(entries).contains((text::trim(entries[k].0, CharSet::White), entries[k].1)),
    decreases entries.len(),
{
    let rule = (text::trim(entries[k].0, CharSet::White), entries[k].1);
    let front = rules_of(entries.drop_last());
    let all = rules_of(entries);
    if k == entries.len() - 1 {
        assert(all[all.len() - 1] == rule);
    } else {
        assert(entries.drop_last()[k] == entries[k]);
        lemma_rules_contain(entries.drop_last(), k);
        let j = front.index_of(rule);
        assert(all[j] == rule);
    }
}

/// All rules are chosen where all expressions were built.
proof fn lemma_chosen_all(rules: Seq<(Seq<char>, Seq<char>)>, built: Seq<bool>)
    requires
        rules.len() <= built.len(),
        forall|i: int| 0 <= i < rules.len() ==> #[trigger] built[i],
    ensures
        chosen(rules, built) == rules,
    decreases rules.len(),
{
    if rules.len() > 0 {
        lemma_chosen_all(rules.drop_last(), built);
        assert(rules.drop_last().push(rules.last()) == rules);
    }
}

/// No replacement is lost: every phrase that is neither blank nor long has its
/// rule.
pub proof fn phrases_have_their_rules(
    rules: Seq<(Seq<char>, Seq<char>)>,
    entries: Seq<(Seq<char>, Seq<char>)>,
    i: int,
)
    requires
        rules_for(rules, entries),
        0 <= i < entries.len(),
        0 < text::trim(entries[i].0, CharSet::White).len() <= SURE_CHARS,
    ensures
        rules.contains((text::trim(entries[i].0, CharSet::White), entries[i].1)),
{
    broadcast use vstd::seq_lib::group_to_multiset_ensures;

    let (sorted, built) = choose|sorted: Seq<(Seq<char>, Seq<char>)>, built: Seq<bool>|
        {
            &&& #[trigger] longest_first(sorted)
            &&& sorted.to_multiset() == entries.to_multiset()
            &&& built.len() == rules_of(sorted).len()
            &&& forall|i: int|
                0 <= i < built.len() && rules_of(sorted)[i].0.len() <= SURE_CHARS
                    ==> #[trigger] built[i]
            &&& rules == #[trigger] chosen(rules_of(sorted), built)
        };
    assert(entries.contains(entries[i]));
    assert(sorted.to_multiset().count(entries[i]) > 0);
    assert(sorted.contains(entries[i]));
    let k = sorted.index_of(entries[i]);
    lemma_rules_contain(sorted, k);
    let rule = (text::trim(entries[i].0, CharSet::White), entries[i].1);
    let j = rules_of(sorted).index_of(rule);
    assert(built[j]);
    lemma_chosen_contains(rules_of(sorted), built, j);
}

/// Where no phrase is long, the rules are those of all phrases, longest first.
pub proof fn short_phrases_determine_the_rules(
    rules: Seq<(Seq<char>, Seq<char>)>,
    entries: Seq<(Seq<char>, Seq<char>)>,
    sorted: Seq<(Seq<char>, Seq<char>)>,
)
    requires
        rules_for(rules, entries),
        longest_first(sorted),
        sorted.to_multiset() == entries.to_multiset(),
        forall|i: int|
            0 <= i < rules_of(sorted).len() ==> (#[trigger] rules_of(sorted)[i]).0.len()
                <= SURE_CHARS,
    ensures
        rules == rules_of(sorted),
{
    let (other, built) = choose|sorted: Seq<(Seq<char>, Seq<char>)>, built: Seq<bool>|
        {
            &&& #[trigger] longest_first(sorted)
            &&& sorted.to_multiset() == entries.to_multiset()
            &&& built.len() == rules_of(sorted).len()
            &&& forall|i: int|
                0 <= i < built.len() && rules_of(sorted)[i].0.len() <= SURE_CHARS
                    ==> #[trigger] built[i]
            &&& rules == #[trigger] chosen(rules_of(sorted), built)
        };
    longest_first_is_unique(sorted, other);
    lemma_chosen_all(rules_of(sorted), built);
}

/// Where a phrase does not stand, nothing changes.
pub proof fn absent_phrase_changes_nothing(s: Seq<char>, phrase: Seq<char>, to: Seq<char>, i: int)
    requires
        phrase.len() > 0,
        0 <= i <= s.len(),
        forall|k: int| i <= k < s.len() ==> !#[trigger] occurs_at(s, phrase, k),
    ensures
        replaced_from(s, phrase, to, i) == s.skip(i),
    decreases s.len() - i,
{
    if i < s.len() {
        assert(!occurs_at(s, phrase, i));
        absent_phrase_changes_nothing(s, phrase, to, i + 1);
    }
}

/// A text in which no rule's phrase stands comes out as it went in.
pub proof fn text_without_phrases_is_kept(rules: Seq<(Seq<char>, Seq<char>)>, s: Seq<char>)
    requires
        forall|r: int, k: int|
            #![trigger occurs_at(s, rules[r].0, k)]
            0 <= r < rules.len() && 0 <= k < s.len() ==> !occurs_at(s, rules[r].0, k),
        forall|r: int| 0 <= r < rules.len() ==> (#[trigger] rules[r]).0.len() > 0,
    ensures
        applied(rules, s) == s,
    decreases rules.len(),
{
    if rules.len() > 0 {
        let front = rules.drop_last();
        text_without_phrases_is_kept(front, s);
        let last = rules[rules.len() - 1];
        absent_phrase_changes_nothing(s, last.0, last.1, 0);
    }
}

/// Part of a word is never replaced: a phrase that begins or ends with a word
/// character does not stand where a word goes on beyond it.
pub proof fn partial_words_are_not_touched(s: Seq<char>, phrase: Seq<char>, i: int)
    requires
        phrase.len() > 0,
        0 <= i,
        i + phrase.len() <= s.len(),
    ensures
        is_phrase_char(phrase[0]) && 0 < i && is_word_char(s[i - 1]) && is_word_char(s[i])
            ==> !occurs_at(s, phrase, i),
        is_phrase_char(phrase.last()) && i + phrase.len() < s.len() && is_word_char(
            s[i + phrase.len() - 1],
        ) && is_word_char(s[i + phrase.len()]) ==> !occurs_at(s, phrase, i),
{
}

/// Letter case does not matter: an ASCII phrase stands in an ASCII text where
/// its lower case form stands.
pub proof fn letter_case_is_ignored(s: Seq<char>, phrase: Seq<char>, i: int)
    requires
        phrase.len() > 0,
        text::all_ascii(s),
        text::all_ascii(phrase),
    ensures
        occurs_at(s, phrase, i) == occurs_at(
            s,
            phrase.map_values(|c: char| text::ascii_lower(c)),
            i,
        ),
{
    let lower = phrase.map_values(|c: char| text::ascii_lower(c));
    if 0 <= i && i + phrase.len() <= s.len() {
        let same = |a: char, b: char| same_letter(a, b);
        if occurs_at(s, lower, i) {
            assert forall|k: int| 0 <= k < phrase.len() implies same(
                #[trigger] phrase[k],
                s[i + k],
            ) by {
                assert(same(lower[k], s[i + k]));
            }
        }
    }
}

/// There is only one way to order entries longest first.
pub proof fn longest_first_is_unique(
    a: Seq<(Seq<char>, Seq<char>)>,
    b: Seq<(Seq<char>, Seq<char>)>,
)
    requires
        longest_first(a),
        longest_first(b),
        a.to_multiset() == b.to_multiset(),
    ensures
        a == b,
    decreases a.len(),
{
    broadcast use vstd::seq_lib::group_to_multiset_ensures;

    assert(a.to_multiset().len() == a.len() && b.to_multiset().len() == b.len());
    if a.len() > 0 {
        assert(b.to_multiset().count(a[0]) > 0 && a.to_multiset().count(b[0]) > 0);
        let i = choose|i: int| 0 <= i < b.len() && b[i] == a[0];
        let j = choose|j: int| 0 <= j < a.len() && a[j] == b[0];
        if i > 0 && j > 0 {
            if text::text_lt(a[0].0, b[0].0) && text::text_lt(b[0].0, a[0].0) {
                text::lemma_text_lt_transitive(a[0].0, b[0].0, a[0].0);
                text::lemma_text_lt_irreflexive(a[0].0);
            }
        }
        assert(a.drop_first() == a.remove(0) && b.drop_first() == b.remove(0));
        longest_first_is_unique(a.drop_first(), b.drop_first());
        assert(a == seq![a[0]] + a.drop_first());
    }
}

/// Rules are applied one after the other, each to what the ones before it left;
/// no rule changes nothing, and one rule replaces its phrase.
pub proof fn rules_are_applied_in_turn(
    first: Seq<(Seq<char>, Seq<char>)>,
    second: Seq<(Seq<char>, Seq<char>)>,
    s: Seq<char>,
)
    ensures
        applied(first + second, s) == applied(second, applied(first, s)),
        first.len() == 0 ==> applied(first, s) == s,
        first.len() == 1 ==> applied(first, s) == replaced(s, first[0].0, first[0].1),
    decreases second.len(),
{
    reveal_with_fuel(applied, 2);
    if second.len() == 0 {
        assert(first + second =~= first);
    } else {
        rules_are_applied_in_turn(first, second.drop_last(), s);
        assert((first + second).drop_last() =~= first + second.drop_last());
    }
}

/// Everything up to the first occurrence of a phrase stays, the occurrence
/// gives way to the replacement as it is written, and what follows is searched
/// on.
pub proof fn first_occurrence_is_replaced(
    s: Seq<char>,
    phrase: Seq<char>,
    to: Seq<char>,
    from: int,
    at: int,
)
    requires
        phrase.len() > 0,
        0 <= from <= at,
        occurs_at(s, phrase, at),
        forall|k: int| from <= k < at ==> !#[trigger] occurs_at(s, phrase, k),
    ensures
        replaced_from(s, phrase, to, from) == s.subrange(from, at) + to + replaced_from(
            s,
            phrase,
            to,
            at + phrase.len(),
        ),
    decreases at - from,
{
    if from == at {
        assert(s.subrange(from, at) + to =~= to);
    } else {
        assert(!occurs_at(s, phrase, from));
        first_occurrence_is_replaced(s, phrase, to, from + 1, at);
        assert(seq![s[from]] + s.subrange(from + 1, at) =~= s.subrange(from, at));
        assert(replaced_from(s, phrase, to, from) =~= s.subrange(from, at) + to + replaced_from(
            s,
            phrase,
            to,
            at + phrase.len(),
        ));
    }
}

/// Each entry gives its own rule, in its own place: none if its phrase is
/// blank, and else its phrase without the white space around it, and its
/// replacement as it is.
pub proof fn entries_give_their_rules(
    a: Seq<(Seq<char>, Seq<char>)>,
    b: Seq<(Seq<char>, Seq<char>)>,
)
    ensures
        rules_of(a + b) == rules_of(a) + rules_of(b),
        a.len() == 0 ==> rules_of(a).len() == 0,
        a.len() == 1 ==> ({
            let phrase = text::trim(a[0].0, CharSet::White);
            &&& phrase.len() == 0 ==> rules_of(a).len() == 0
            &&& phrase.len() > 0 ==> rules_of(a) == seq![(phrase, a[0].1)]
        }),
    decreases b.len(),
{
    reveal_with_fuel(rules_of, 2);
    if a.len() == 1 {
        assert(rules_of(a.drop_last()) =~= Seq::<(Seq<char>, Seq<char>)>::empty());
        assert(a.last() == a[0]);
        let phrase = text::trim(a[0].0, CharSet::White);
        if phrase.len() > 0 {
            assert(rules_of(a) =~= seq![(phrase, a[0].1)]);
        }
    }
    if b.len() == 0 {
        assert(a + b =~= a);
        assert(rules_of(a) + rules_of(b) =~= rules_of(a));
    } else {
        entries_give_their_rules(a, b.drop_last());
        assert((a + b).drop_last() =~= a + b.drop_last());
        assert(rules_of(a + b) =~= rules_of(a) + rules_of(b));
    }
}

/// The entry that a rule comes from.
proof fn lemma_rule_from(entries: Seq<(Seq<char>, Seq<char>)>, i: int) -> (k: int)
    requires
        0 <= i < rules_of(entries).len(),
    ensures
        i <= k < entries.len(),
        rules_of(entries)[i] == (text::trim(entries[k].0, CharSet::White), entries[k].1),
        rules_of(entries.take(k)).len() == i,
    decreases entries.len(),
{
    let front = entries.drop_last();
    if i < rules_of(front).len() {
        let k = lemma_rule_from(front, i);
        assert(entries.take(k) =~= front.take(k));
        k
    } else {
        assert(entries.take(entries.len() - 1) =~= front);
        lemma_rules_len(front);
        entries.len() - 1
    }
}

/// There are no more rules than entries.
proof fn lemma_rules_len(entries: Seq<(Seq<char>, Seq<char>)>)
    ensures
        rules_of(entries).len() <= entries.len(),
    decreases entries.len(),
{
    if entries.len() > 0 {
        lemma_rules_len(entries.drop_last());
    }
}

/// More entries have no fewer rules.
proof fn lemma_rules_grow(entries: Seq<(Seq<char>, Seq<char>)>, j: int, k: int)
    requires
        0 <= j <= k <= entries.len(),
    ensures
        rules_of(entries.take(j)).len() <= rules_of(entries.take(k)).len(),
    decreases k - j,
{
    if j < k {
        lemma_rules_grow(entries, j, k - 1);
        assert(entries.take(k).drop_last() =~= entries.take(k - 1));
    }
}

/// The place in all rules of one that is chosen.
proof fn lemma_chosen_from(rules: Seq<(Seq<char>, Seq<char>)>, built: Seq<bool>, i: int) -> (k: int)
    requires
        0 <= i < chosen(rules, built).len(),
    ensures
        0 <= k < rules.len(),
        chosen(rules, built)[i] == rules[k],
        chosen(rules.take(k), built).len() == i,
    decreases rules.len(),
{
    let front = rules.drop_last();
    if i < chosen(front, built).len() {
        let k = lemma_chosen_from(front, built, i);
        assert(rules.take(k) =~= front.take(k));
        k
    } else {
        assert(rules.take(rules.len() - 1) =~= front);
        rules.len() - 1
    }
}

/// More rules to choose from give no fewer.
proof fn lemma_chosen_grow(rules: Seq<(Seq<char>, Seq<char>)>, built: Seq<bool>, j: int, k: int)
    requires
        0 <= j <= k <= rules.len(),
    ensures
        chosen(rules.take(j), built).len() <= chosen(rules.take(k), built).len(),
    decreases k - j,
{
    if j < k {
        lemma_chosen_grow(rules, built, j, k - 1);
        assert(rules.take(k).drop_last() =~= rules.take(k - 1));
    }
}

/// Every rule comes from an entry, and longer phrases go first: of two rules
/// the earlier comes from the longer phrase, counted in bytes as it was
/// entered, or from the one that is first in the order of texts where both are
/// of one length.
pub proof fn longer_phrases_go_first(
    rules: Seq<(Seq<char>, Seq<char>)>,
    entries: Seq<(Seq<char>, Seq<char>)>,
    i: int,
    j: int,
) -> (from: ((Seq<char>, Seq<char>), (Seq<char>, Seq<char>)))
    requires
        rules_for(rules, entries),
        0 <= i < j < rules.len(),
    ensures
        entries.contains(from.0),
        entries.contains(from.1),
        rules[i] == (text::trim(from.0.0, CharSet::White), from.0.1),
        rules[j] == (text::trim(from.1.0, CharSet::White), from.1.1),
        ({
            let a = vstd::utf8::encode_utf8(from.0.0).len() as usize;
            let b = vstd::utf8::encode_utf8(from.1.0).len() as usize;
            a > b || (a == b && text::text_lt(from.0.0, from.1.0))
        }),
{
    broadcast use vstd::seq_lib::group_to_multiset_ensures;

    let (sorted, built) = choose|sorted: Seq<(Seq<char>, Seq<char>)>, built: Seq<bool>|
        {
            &&& #[trigger] longest_first(sorted)
            &&& sorted.to_multiset() == entries.to_multiset()
            &&& built.len() == rules_of(sorted).len()
            &&& forall|i: int|
                0 <= i < built.len() && rules_of(sorted)[i].0.len() <= SURE_CHARS
                    ==> #[trigger] built[i]
            &&& rules == #[trigger] chosen(rules_of(sorted), built)
        };
    let all = rules_of(sorted);
    let ki = lemma_chosen_from(all, built, i);
    let kj = lemma_chosen_from(all, built, j);
    if kj <= ki {
        lemma_chosen_grow(all, built, kj, ki);
    }
    let ei = lemma_rule_from(sorted, ki);
    let ej = lemma_rule_from(sorted, kj);
    if ej <= ei {
        lemma_rules_grow(sorted, ej, ei);
    }
    assert(goes_first(sorted[ei], sorted[ej]));
    assert(sorted.to_multiset().count(sorted[ei]) > 0 && sorted.to_multiset().count(sorted[ej]) > 0);
    assert(entries.to_multiset().count(sorted[ei]) > 0 && entries.to_multiset().count(sorted[ej])
        > 0);
    (sorted[ei], sorted[ej])
}

} // verus!

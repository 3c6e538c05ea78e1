//! Dropping filler sounds from a transcript.

use vstd::prelude::*;

use crate::text;
use crate::text::{
    char_is_uppercase, char_to_uppercase, chars_of, join_words, same_text, slice_of, split_words,
    str_to_lowercase, string_of, substring, tail_len, trimmed, trimmed_end, trimmed_start, CharSet,
};

verus! {

/// The filler sounds, in lower case.
pub open spec fn fillers() -> Seq<Seq<char>> {
    seq![
        "um"@,
        "umm"@,
        "uh"@,
        "uhh"@,
        "er"@,
        "erm"@,
        "hmm"@,
        "hm"@,
        "mm"@,
        "mmm"@,
        "mhm"@,
        "mm-hmm"@,
        "uh-huh"@,
        "ah"@,
        "ahh"@,
    ]
}

/// The part of a word that is compared with the fillers: without the
/// punctuation around it, in lower case.
pub open spec fn bare_word(word: Seq<char>) -> Seq<char> {
    text::to_lowercase(text::trim(word, CharSet::Edge))
}

/// Whether a word is a filler sound.
pub open spec fn is_filler(word: Seq<char>) -> bool {
    fillers().contains(bare_word(word))
}

/// The sentence end that a word carries, such as `.` or `?!`.
pub open spec fn sentence_end(word: Seq<char>) -> Seq<char> {
    word.skip(word.len() - text::tail(word, CharSet::SentenceEnd))
}

/// A word that takes over the sentence end of a dropped filler: clause marks
/// at its end go, and it is closed unless it is closed already.
pub open spec fn closed(word: Seq<char>, end: Seq<char>) -> Seq<char> {
    let bare = text::trim_end(word, CharSet::ClauseMark);
    if bare.len() > 0 && CharSet::SentenceEnd.has(bare.last()) {
        bare
    } else {
        bare + end
    }
}

/// What the words kept so far become when the next word is read.
pub open spec fn keep(kept: Seq<Seq<char>>, word: Seq<char>) -> Seq<Seq<char>> {
    if !is_filler(word) {
        kept.push(word)
    } else if kept.len() > 0 && sentence_end(word).len() > 0 {
        kept.drop_last().push(closed(kept.last(), sentence_end(word)))
    } else {
        kept
    }
}

/// The words that remain of a sequence of words.
pub open spec fn kept_words(ws: Seq<Seq<char>>) -> Seq<Seq<char>>
    decreases ws.len(),
{
    if ws.len() == 0 {
        seq![]
    } else {
        keep(kept_words(ws.drop_last()), ws.last())
    }
}

/// The remaining words as one text, without a comma or space left in front.
pub open spec fn rejoined(text: Seq<char>) -> Seq<char> {
    text::trim_start(
        text::join(kept_words(text::words(text))),
        CharSet::LeadIn,
    )
}

/// The text without its filler sounds. It starts with a capital where the
/// text did.
pub open spec fn stripped(text: Seq<char>) -> Seq<char> {
    let rest = rejoined(text);
    if rest.len() > 0 && text.len() > 0 && text::is_uppercase(text[0]) {
        text::to_uppercase(rest[0]) + rest.drop_first()
    } else {
        rest
    }
}

/// Whether upper-casing leaves a capital as it is. Of an ASCII letter it does;
/// which others Unicode leaves is not stated here.
pub open spec fn is_settled(c: char) -> bool {
    text::is_uppercase(c) ==> text::to_uppercase(c) == seq![c]
}

/// A word with its first letter in upper case.
pub open spec fn capitalised(word: Seq<char>) -> Seq<char> {
    text::to_uppercase(word[0]) + word.drop_first()
}

/// Whether a word that is no filler can take a capital: it is then still one
/// word, still no filler, and its capital stays. An ASCII word can.
pub open spec fn bears_capital(word: Seq<char>) -> bool {
    let c = capitalised(word);
    text::all_ascii(word) || (text::is_word(c) && !is_filler(c) && !CharSet::LeadIn.has(c[0])
        && is_settled(c[0]))
}

/// Taking over a sentence end leaves a word what it was, filler or not.
proof fn lemma_closed_keeps_bare_word(word: Seq<char>, filler: Seq<char>)
    ensures
        bare_word(closed(word, sentence_end(filler))) == bare_word(word),
{
    let bare = text::trim_end(word, CharSet::ClauseMark);
    let n = text::tail(word, CharSet::ClauseMark) as int;
    text::lemma_tail_bounds(word, CharSet::ClauseMark);
    let marks = word.skip(word.len() - n);
    assert(word == bare + marks);
    text::lemma_trim_ignores_suffix(bare, marks, CharSet::Edge);
    let end = sentence_end(filler);
    text::lemma_tail_bounds(filler, CharSet::SentenceEnd);
    text::lemma_trim_ignores_suffix(bare, end, CharSet::Edge);
}

/// Taking over a sentence end leaves a word a word.
proof fn lemma_closed_is_word(word: Seq<char>, filler: Seq<char>)
    requires
        text::is_word(word),
        sentence_end(filler).len() > 0,
    ensures
        text::is_word(closed(word, sentence_end(filler))),
{
    text::lemma_tail_bounds(word, CharSet::ClauseMark);
    text::lemma_tail_bounds(filler, CharSet::SentenceEnd);
}

/// No word that remains is a filler sound.
pub proof fn no_filler_is_kept(ws: Seq<Seq<char>>)
    requires
        text::all_words(ws),
    ensures
        text::all_words(kept_words(ws)),
        forall|i: int|
            0 <= i < kept_words(ws).len() ==> !is_filler(#[trigger] kept_words(ws)[i]),
    decreases ws.len(),
{
    if ws.len() > 0 {
        let before = kept_words(ws.drop_last());
        let word = ws.last();
        no_filler_is_kept(ws.drop_last());
        if is_filler(word) && before.len() > 0 && sentence_end(word).len() > 0 {
            lemma_closed_keeps_bare_word(before.last(), word);
            lemma_closed_is_word(before.last(), word);
        }
    }
}

/// Commas and spaces in front of joined words can go without making a filler
/// of any word: what remains is again some joined words.
proof fn lemma_lead_in_of_join(parts: Seq<Seq<char>>) -> (rest: Seq<Seq<char>>)
    requires
        text::all_words(parts),
        forall|i: int| 0 <= i < parts.len() ==> !is_filler(#[trigger] parts[i]),
    ensures
        text::trim_start(text::join(parts), CharSet::LeadIn) == text::join(rest),
        text::all_words(rest),
        forall|i: int| 0 <= i < rest.len() ==> !is_filler(#[trigger] rest[i]),
    decreases parts.len(),
{
    let s = text::join(parts);
    if parts.len() == 0 {
        parts
    } else {
        let p = parts[0];
        let more = parts.drop_first();
        if parts.len() > 1 {
            text::lemma_join_front(parts);
        }
        let l = text::lead(p, CharSet::LeadIn) as int;
        text::lemma_lead_bounds(p, CharSet::LeadIn);
        if l < p.len() {
            text::lemma_lead(s, CharSet::LeadIn, l);
            let first = p.skip(l);
            let rest = seq![first] + more;
            text::lemma_lead_bounds(p, CharSet::Edge);
            text::lemma_trim_ignores_prefix(p, l, CharSet::Edge);
            if parts.len() > 1 {
                text::lemma_join_front(rest);
                assert(rest.drop_first() == more);
            }
            rest
        } else if parts.len() == 1 {
            text::lemma_lead(s, CharSet::LeadIn, l);
            more
        } else {
            let inner = text::join(more);
            let k = text::lead(inner, CharSet::LeadIn) as int;
            text::lemma_lead_bounds(inner, CharSet::LeadIn);
            assert forall|i: int| 0 <= i < l + 1 + k implies CharSet::LeadIn.has(
                #[trigger] s[i],
            ) by {
                if i == l {
                } else if i > l {
                }
            }
            text::lemma_lead(s, CharSet::LeadIn, l + 1 + k);
            lemma_lead_in_of_join(more)
        }
    }
}

/// Capitalising an ASCII word leaves it what it was, filler or not.
proof fn lemma_capital_keeps_bare_word(w: Seq<char>)
    requires
        w.len() > 0,
        text::all_ascii(w),
    ensures
        bare_word(seq![text::ascii_upper(w[0])] + w.drop_first()) == bare_word(w),
{
    let u = seq![text::ascii_upper(w[0])] + w.drop_first();
    let l = text::lead(w, CharSet::Edge) as int;
    text::lemma_lead_bounds(w, CharSet::Edge);
    text::lemma_lead(u, CharSet::Edge, l);
    let wt = w.skip(l);
    let ut = u.skip(l);
    let k = text::tail(wt, CharSet::Edge) as int;
    text::lemma_tail_bounds(wt, CharSet::Edge);
    assert forall|i: int| ut.len() - k <= i < ut.len() implies CharSet::Edge.has(
        #[trigger] ut[i],
    ) by {
        assert(CharSet::Edge.has(wt[i]));
    }
    text::lemma_tail(ut, CharSet::Edge, k);
}

/// What remains of a text, before any capital, is made of words, none of which
/// is a filler sound, with single spaces between them and no comma in front.
proof fn lemma_rejoined_parts(text: Seq<char>) -> (parts: Seq<Seq<char>>)
    ensures
        text::all_words(parts),
        forall|i: int| 0 <= i < parts.len() ==> !is_filler(#[trigger] parts[i]),
        rejoined(text) == text::join(parts),
        text::words(rejoined(text)) == parts,
        rejoined(text).len() > 0 ==> parts.len() > 0 && parts[0][0] == rejoined(text)[0],
        rejoined(text).len() > 0 ==> !CharSet::LeadIn.has(rejoined(text)[0]),
{
    text::lemma_words_are_words(text);
    no_filler_is_kept(text::words(text));
    let parts = lemma_lead_in_of_join(kept_words(text::words(text)));
    text::lemma_words_of_join(parts);
    text::lemma_lead_bounds(text::join(kept_words(text::words(text))), CharSet::LeadIn);
    if parts.len() > 1 {
        text::lemma_join_front(parts);
    }
    parts
}

/// The result is made of words, none of which is a filler sound, with single
/// spaces between them and no comma in front, where its first word can take a
/// capital or need not.
proof fn lemma_stripped_parts(text: Seq<char>) -> (parts: Seq<Seq<char>>)
    requires
        rejoined(text).len() > 0 && text::is_uppercase(text[0]) ==> bears_capital(
            text::words(rejoined(text))[0],
        ),
    ensures
        text::all_words(parts),
        forall|i: int| 0 <= i < parts.len() ==> !is_filler(#[trigger] parts[i]),
        stripped(text) == text::join(parts),
        text::words(stripped(text)) == parts,
        stripped(text).len() > 0 ==> !CharSet::LeadIn.has(stripped(text)[0]),
        stripped(text).len() > 0 && text::is_uppercase(text[0]) ==> is_settled(stripped(text)[0]),
{
    let parts = lemma_rejoined_parts(text);
    let rest = rejoined(text);
    if rest.len() > 0 && text::is_uppercase(text[0]) {
        let w = parts[0];
        if parts.len() > 1 {
            text::lemma_join_front(parts);
        }
        let u = capitalised(w);
        if text::all_ascii(w) {
            assert(text::is_ascii(w[0]));
            lemma_capital_keeps_bare_word(w);
        }
        let capital = seq![u] + parts.drop_first();
        assert forall|i: int| 0 <= i < capital.len() implies text::is_word(#[trigger] capital[i])
            && !is_filler(capital[i]) by {
            if i > 0 {
                assert(capital[i] == parts[i]);
            }
        }
        if parts.len() > 1 {
            text::lemma_join_front(capital);
            assert(capital.drop_first() == parts.drop_first());
        }
        text::lemma_words_of_join(capital);
        capital
    } else {
        parts
    }
}

/// Before any capital, no word that remains of a text is a filler sound,
/// whatever the text.
pub proof fn no_filler_remains(text: Seq<char>)
    ensures
        forall|i: int|
            0 <= i < text::words(rejoined(text)).len() ==> !is_filler(
                #[trigger] text::words(rejoined(text))[i],
            ),
{
    let parts = lemma_rejoined_parts(text);
}

/// Before any capital, nothing more goes the second time, whatever the text.
pub proof fn rejoining_twice_is_rejoining_once(text: Seq<char>)
    ensures
        rejoined(rejoined(text)) == rejoined(text),
{
    let parts = lemma_rejoined_parts(text);
    text_without_fillers_is_kept(parts);
    text::lemma_lead(rejoined(text), CharSet::LeadIn, 0);
}

/// No word of the result is a filler sound. Where the result is capitalised,
/// this is said of a first word in ASCII: which letters Unicode's upper-casing
/// gives is not stated here.
pub proof fn no_filler_survives(text: Seq<char>)
    requires
        text.len() > 0 && text::is_uppercase(text[0]) && rejoined(text).len() > 0 ==> text::all_ascii(
            text::words(rejoined(text))[0],
        ),
    ensures
        forall|i: int|
            0 <= i < text::words(stripped(text)).len() ==> !is_filler(
                #[trigger] text::words(stripped(text))[i],
            ),
{
    let parts = lemma_stripped_parts(text);
}

/// A text of words with single spaces between them, none of them a filler,
/// comes out as it went in, unless it begins with a comma, or with a capital
/// that upper-casing does not leave as it is.
pub proof fn clean_text_is_kept(text: Seq<char>)
    requires
        text == text::join(text::words(text)),
        forall|i: int|
            0 <= i < text::words(text).len() ==> !is_filler(#[trigger] text::words(text)[i]),
        text.len() > 0 ==> !CharSet::LeadIn.has(text[0]),
        text.len() > 0 ==> is_settled(text[0]),
    ensures
        stripped(text) == text,
{
    text_without_fillers_is_kept(text::words(text));
    text::lemma_lead_bounds(text, CharSet::LeadIn);
    text::lemma_lead(text, CharSet::LeadIn, 0);
}

/// Stripping a text a second time changes nothing more. Where the text begins
/// with a capital, its first remaining word must be able to take one, and
/// where it does not, a capital that comes to the front must be one that
/// upper-casing leaves as it is. In ASCII both always hold.
pub proof fn stripping_twice_is_stripping_once(text: Seq<char>)
    requires
        rejoined(text).len() > 0 && text::is_uppercase(text[0]) ==> bears_capital(
            text::words(rejoined(text))[0],
        ),
        rejoined(text).len() > 0 && !text::is_uppercase(text[0]) ==> is_settled(rejoined(text)[0]),
    ensures
        stripped(stripped(text)) == stripped(text),
{
    let parts = lemma_stripped_parts(text);
    clean_text_is_kept(stripped(text));
}

/// A text without fillers keeps all its words as they are.
pub proof fn text_without_fillers_is_kept(ws: Seq<Seq<char>>)
    requires
        forall|i: int| 0 <= i < ws.len() ==> !is_filler(#[trigger] ws[i]),
    ensures
        kept_words(ws) == ws,
    decreases ws.len(),
{
    if ws.len() > 0 {
        text_without_fillers_is_kept(ws.drop_last());
    }
}

/// A sentence keeps its end: when a filler at its end is dropped, the word
/// before it ends the sentence.
pub proof fn sentence_ends_are_kept(kept: Seq<Seq<char>>, word: Seq<char>)
    requires
        is_filler(word),
        sentence_end(word).len() > 0,
        kept.len() > 0,
    ensures
        keep(kept, word).len() == kept.len(),
        keep(kept, word).last().len() > 0,
        CharSet::SentenceEnd.has(keep(kept, word).last().last()),
{
    text::lemma_tail_bounds(word, CharSet::SentenceEnd);
}

/// A word is a filler exactly if, without the punctuation around it and in
/// lower case, it is one of these sounds.
pub proof fn fillers_are_these_sounds(word: Seq<char>)
    ensures
        ({
            let sound = text::to_lowercase(text::trim(word, CharSet::Edge));
            is_filler(word) <==> (sound == "um"@ || sound == "umm"@ || sound == "uh"@ || sound
                == "uhh"@ || sound == "er"@ || sound == "erm"@ || sound == "hmm"@ || sound == "hm"@
                || sound == "mm"@ || sound == "mmm"@ || sound == "mhm"@ || sound == "mm-hmm"@
                || sound == "uh-huh"@ || sound == "ah"@ || sound == "ahh"@)
        }),
{
    let f = fillers();
    assert(f[0] == "um"@ && f[1] == "umm"@ && f[2] == "uh"@ && f[3] == "uhh"@ && f[4] == "er"@
        && f[5] == "erm"@ && f[6] == "hmm"@ && f[7] == "hm"@ && f[8] == "mm"@ && f[9] == "mmm"@
        && f[10] == "mhm"@ && f[11] == "mm-hmm"@ && f[12] == "uh-huh"@ && f[13] == "ah"@ && f[14]
        == "ahh"@ && f.len() == 15);
}

/// The words of a sequence that are no fillers.
pub open spec fn spoken(ws: Seq<Seq<char>>) -> Seq<Seq<char>> {
    ws.filter(|w: Seq<char>| !is_filler(w))
}

/// Dropping fillers loses no other word and adds none: as many words remain as
/// there are words that are no fillers, in the same order, each what it was but
/// for the punctuation around it.
pub proof fn every_other_word_is_kept(ws: Seq<Seq<char>>)
    ensures
        kept_words(ws).len() == spoken(ws).len(),
        forall|i: int|
            0 <= i < spoken(ws).len() ==> bare_word(#[trigger] kept_words(ws)[i]) == bare_word(
                spoken(ws)[i],
            ),
    decreases ws.len(),
{
    reveal(Seq::filter);
    if ws.len() > 0 {
        let before = kept_words(ws.drop_last());
        let word = ws.last();
        every_other_word_is_kept(ws.drop_last());
        if is_filler(word) && before.len() > 0 && sentence_end(word).len() > 0 {
            lemma_closed_keeps_bare_word(before.last(), word);
        }
    }
}

/// What is said before a word that is no filler does not matter to it or to
/// what follows it, and the other way round: a sequence can be parted in front
/// of every such word.
pub proof fn words_are_kept_apart(a: Seq<Seq<char>>, b: Seq<Seq<char>>)
    requires
        b.len() > 0 ==> !is_filler(b[0]),
    ensures
        kept_words(a + b) == kept_words(a) + kept_words(b),
        b.len() > 0 ==> kept_words(b).len() > 0,
    decreases b.len(),
{
    if b.len() == 0 {
        assert(a + b =~= a);
        assert(kept_words(a) + kept_words(b) =~= kept_words(a));
    } else {
        let front = b.drop_last();
        assert((a + b).drop_last() =~= a + front);
        words_are_kept_apart(a, front);
        let (x, y) = (kept_words(a), kept_words(front));
        assert(kept_words(a + b) == keep(x + y, b.last()));
        if front.len() == 0 {
            assert(b[0] == b.last());
            assert(keep(x + y, b.last()) =~= x + keep(y, b.last()));
        } else {
            assert((x + y).drop_last() =~= x + y.drop_last());
            assert(keep(x + y, b.last()) =~= x + keep(y, b.last()));
        }
    }
}

/// Fillers that no other word precedes leave nothing, whatever punctuation they
/// carry.
pub proof fn leading_fillers_leave_nothing(fs: Seq<Seq<char>>)
    requires
        forall|i: int| 0 <= i < fs.len() ==> is_filler(#[trigger] fs[i]),
    ensures
        kept_words(fs).len() == 0,
    decreases fs.len(),
{
    if fs.len() > 0 {
        leading_fillers_leave_nothing(fs.drop_last());
        assert(is_filler(fs[fs.len() - 1]));
    }
}

/// A word stays as it is where none of the fillers that follow it ends the
/// sentence. Where one does, the first of them hands its sentence end on: the
/// word loses the clause marks at its end, and takes the sentence end over
/// unless it ends the sentence itself.
pub proof fn word_takes_over_the_first_sentence_end(w: Seq<char>, fs: Seq<Seq<char>>, first: int)
    requires
        !is_filler(w),
        0 <= first <= fs.len(),
        forall|i: int| 0 <= i < fs.len() ==> is_filler(#[trigger] fs[i]),
        forall|i: int| 0 <= i < first ==> sentence_end(#[trigger] fs[i]).len() == 0,
        first < fs.len() ==> sentence_end(fs[first]).len() > 0,
    ensures
        ({
            let kept = kept_words(seq![w] + fs);
            let bare = text::trim_end(w, CharSet::ClauseMark);
            &&& kept.len() == 1
            &&& first == fs.len() ==> kept[0] == w
            &&& first < fs.len() && bare.len() > 0 && (bare.last() == '.' || bare.last() == '?'
                || bare.last() == '!') ==> kept[0] == bare
            &&& first < fs.len() && !(bare.len() > 0 && (bare.last() == '.' || bare.last() == '?'
                || bare.last() == '!')) ==> kept[0] == bare + sentence_end(fs[first])
        }),
    decreases fs.len(),
{
    let ws = seq![w] + fs;
    if fs.len() == 0 {
        assert(ws.drop_last() =~= Seq::<Seq<char>>::empty());
        assert(ws.last() == w);
        assert(kept_words(ws.drop_last()) =~= Seq::<Seq<char>>::empty());
        assert(kept_words(ws) == keep(kept_words(ws.drop_last()), w));
        assert(kept_words(ws) =~= seq![w]);
    } else {
        let front = fs.drop_last();
        let f = fs[fs.len() - 1];
        assert(ws.drop_last() =~= seq![w] + front);
        assert(ws.last() == f);
        assert(is_filler(f));
        let first_before = if first == fs.len() {
            first - 1
        } else {
            first
        };
        assert forall|i: int| 0 <= i < front.len() implies is_filler(#[trigger] front[i]) by {
            assert(front[i] == fs[i]);
        }
        assert forall|i: int| 0 <= i < first_before implies sentence_end(
            #[trigger] front[i],
        ).len() == 0 by {
            assert(front[i] == fs[i]);
        }
        if first_before < front.len() {
            assert(front[first_before] == fs[first]);
        }
        word_takes_over_the_first_sentence_end(w, front, first_before);
        let before = kept_words(seq![w] + front);
        let bare = text::trim_end(w, CharSet::ClauseMark);
        if first < fs.len() - 1 {
            // It was closed before, and a second sentence end changes nothing.
            let k = before[0];
            text::lemma_tail_bounds(fs[first], CharSet::SentenceEnd);
            assert(k.len() > 0 && CharSet::SentenceEnd.has(k.last()));
            text::lemma_tail(k, CharSet::ClauseMark, 0);
            assert(text::trim_end(k, CharSet::ClauseMark) =~= k);
            assert(closed(k, sentence_end(f)) == k);
            assert(before.drop_last().push(k) =~= before);
        } else if first == fs.len() - 1 {
            assert(before.drop_last().push(closed(w, sentence_end(f))) =~= seq![
                closed(w, sentence_end(f)),
            ]);
        }
    }
}

/// The sentence end of a word is the longest run of full stops, question marks
/// and exclamation marks at its end.
pub proof fn sentence_ends_are_marks(word: Seq<char>)
    ensures
        ({
            let end = sentence_end(word);
            let front = word.take(word.len() - end.len());
            &&& end.len() <= word.len()
            &&& word == front + end
            &&& forall|i: int|
                0 <= i < end.len() ==> #[trigger] end[i] == '.' || end[i] == '?' || end[i] == '!'
            &&& front.len() > 0 ==> front.last() != '.' && front.last() != '?' && front.last()
                != '!'
        }),
{
    text::lemma_tail_bounds(word, CharSet::SentenceEnd);
    let end = sentence_end(word);
    assert(word =~= word.take(word.len() - end.len()) + end);
}

/// The words that remain are joined with single spaces, and of the result only
/// commas and spaces in front go.
pub proof fn only_commas_in_front_are_cut(text: Seq<char>) -> (cut: Seq<char>)
    ensures
        text::join(kept_words(text::words(text))) == cut + rejoined(text),
        forall|i: int| 0 <= i < cut.len() ==> #[trigger] cut[i] == ',' || cut[i] == ' ',
        rejoined(text).len() > 0 ==> rejoined(text)[0] != ',' && rejoined(text)[0] != ' ',
{
    let whole = text::join(kept_words(text::words(text)));
    text::lemma_lead_bounds(whole, CharSet::LeadIn);
    let l = text::lead(whole, CharSet::LeadIn) as int;
    assert(whole =~= whole.take(l) + rejoined(text));
    whole.take(l)
}

/// What remains is the result, but that its first character is in upper case
/// where the text's is.
pub proof fn only_the_first_letter_is_capitalised(text: Seq<char>)
    ensures
        ({
            let rest = rejoined(text);
            let capital = text.len() > 0 && text::is_uppercase(text[0]);
            &&& rest.len() == 0 ==> stripped(text).len() == 0
            &&& !capital ==> stripped(text) == rest
            &&& capital && rest.len() > 0 ==> stripped(text) == text::to_uppercase(rest[0])
                + rest.skip(1)
        }),
{
    if rejoined(text).len() > 0 {
        assert(rejoined(text).skip(1) =~= rejoined(text).drop_first());
    }
}

/// Whether a word in lower case is one of the filler sounds.
pub fn is_filler_sound(lower: &str) -> (r: bool)
    ensures
        r == fillers().contains(lower@),
{
    let r = same_text(lower, "um") || same_text(lower, "umm") || same_text(lower, "uh")
        || same_text(lower, "uhh") || same_text(lower, "er") || same_text(lower, "erm")
        || same_text(lower, "hmm") || same_text(lower, "hm") || same_text(lower, "mm")
        || same_text(lower, "mmm") || same_text(lower, "mhm") || same_text(lower, "mm-hmm")
        || same_text(lower, "uh-huh") || same_text(lower, "ah") || same_text(lower, "ahh");
    proof {
        let f = fillers();
        if r {
            assert(f[0] == "um"@ && f[1] == "umm"@ && f[2] == "uh"@ && f[3] == "uhh"@ && f[4]
                == "er"@ && f[5] == "erm"@ && f[6] == "hmm"@ && f[7] == "hm"@ && f[8] == "mm"@
                && f[9] == "mmm"@ && f[10] == "mhm"@ && f[11] == "mm-hmm"@ && f[12] == "uh-huh"@
                && f[13] == "ah"@ && f[14] == "ahh"@);
        }
    }
    r
}

/// A word closed with the sentence end of a dropped filler.
fn close_word(word: &Vec<char>, end: &Vec<char>) -> (r: Vec<char>)
    ensures
        r@ == closed(word@, end@),
{
    let mut bare = trimmed_end(word, CharSet::ClauseMark);
    if bare.len() > 0 && CharSet::SentenceEnd.contains(bare[bare.len() - 1]) {
        return bare;
    }
    let ghost start = bare@;
    let mut i: usize = 0;
    while i < end.len()
        invariant
            i <= end@.len(),
            bare@ == start + end@.take(i as int),
        decreases end@.len() - i,
    {
        bare.push(end[i]);
        i = i + 1;
    }
    bare
}

/// Drops filler sounds ("um", "mm-hmm") while keeping sentence punctuation.
pub fn strip_fillers(text: &str) -> (r: String)
    ensures
        r@ == stripped(text@),
{
    let chars = chars_of(text);
    let words = split_words(&chars);
    let ghost ws = text::views(words@);
    let mut kept: Vec<Vec<char>> = Vec::new();
    let mut i: usize = 0;
    while i < words.len()
        invariant
            i <= words@.len(),
            ws == text::views(words@),
            text::views(kept@) == kept_words(ws.take(i as int)),
        decreases words@.len() - i,
    {
        let word = &words[i];
        assert(ws.take(i + 1).drop_last() == ws.take(i as int));
        let lower = str_to_lowercase(string_of(&trimmed(word, CharSet::Edge)).as_str());
        if is_filler_sound(lower.as_str()) {
            let n = tail_len(word, CharSet::SentenceEnd);
            if n > 0 && kept.len() > 0 {
                let end = slice_of(word, word.len() - n, word.len());
                let prev = kept.pop().unwrap();
                let closed_word = close_word(&prev, &end);
                kept.push(closed_word);
            }
        } else {
            let copy = slice_of(word, 0, word.len());
            assert(copy@ == word@);
            kept.push(copy);
        }
        i = i + 1;
    }
    assert(ws.take(i as int) == ws);
    let rest = trimmed_start(&join_words(&kept), CharSet::LeadIn);
    if rest.len() > 0 && chars.len() > 0 && char_is_uppercase(chars[0]) {
        let mut out = char_to_uppercase(rest[0]);
        let remainder = substring(&rest, 1, rest.len());
        out.append(remainder.as_str());
        out
    } else {
        string_of(&rest)
    }
}

} // verus!

//! Clean-up of transcripts: fillers, replacements and plain text helpers.

use murmur::fillers::{is_filler_sound, strip_fillers};
use murmur::replacements::Replacements;
use murmur::replacer::{
    phrase_pattern, phrases_of, sort_longest_first, Replacer, SURE_CHARS,
};
use murmur::text::{
    chars_of, join_words, same_text, split_words, string_of, text_before, trim_text,
    CharSet,
};

fn replacements(pairs: &[(&str, &str)]) -> Replacements {
    let mut r = Replacements::new();
    for (a, b) in pairs {
        r.insert(a.to_string(), b.to_string());
    }
    r
}

fn replacer(pairs: &[(&str, &str)]) -> Replacer {
    Replacer::new(&replacements(pairs))
}

#[test]
fn replaces_whole_words_case_insensitively() {
    let r = replacer(&[("java script", "JavaScript"), ("open ai", "OpenAI")]);
    assert_eq!(
        r.apply("Ask Open AI about Java Script."),
        "Ask OpenAI about JavaScript."
    );
}

#[test]
fn does_not_touch_partial_words() {
    let r = replacer(&[("can", "CAN")]);
    assert_eq!(r.apply("scanner can"), "scanner CAN");
}

#[test]
fn longest_phrase_wins() {
    let r = replacer(&[("script", "Script"), ("java script", "JavaScript")]);
    assert_eq!(r.apply("java script and script"), "JavaScript and Script");
}

#[test]
fn strips_fillers() {
    assert_eq!(strip_fillers("Mm-hmm."), "");
    assert_eq!(
        strip_fillers("Um, so we ship Friday."),
        "So we ship Friday."
    );
    assert_eq!(strip_fillers("That works, mm-hmm."), "That works.");
    assert_eq!(
        strip_fillers("I think, uh, it's fine"),
        "I think, it's fine"
    );
    assert_eq!(
        strip_fillers("Yeah, humming along."),
        "Yeah, humming along."
    );
}

#[test]
fn empty_and_symbol_rules() {
    let r = replacer(&[("", "x"), ("c plus plus", "C++"), ("c++", "C++")]);
    assert_eq!(r.apply("the c plus plus way"), "the C++ way");
    assert_eq!(r.apply("I like c++ a lot"), "I like C++ a lot");
}

#[test]
fn dollar_signs_are_literal() {
    let r = replacer(&[("price", "$5")]);
    assert_eq!(r.apply("the price"), "the $5");
}

#[test]
fn every_filler_is_dropped_whatever_its_case() {
    for f in [
        "um", "umm", "uh", "uhh", "er", "erm", "hmm", "hm", "mm", "mmm", "mhm", "mm-hmm", "uh-huh",
        "ah", "ahh",
    ] {
        assert!(is_filler_sound(f));
        assert_eq!(strip_fillers(&format!("we {f} go")), "we go");
        assert_eq!(strip_fillers(&format!("we {}, go", f.to_uppercase())), "we go");
    }
    assert!(!is_filler_sound("human"));
    assert!(!is_filler_sound(""));
}

#[test]
fn sentence_ends_survive_their_filler() {
    assert_eq!(strip_fillers("Really, uh?"), "Really?");
    assert_eq!(strip_fillers("Done. Uh!"), "Done.");
    assert_eq!(strip_fillers("so um ..."), "so ...");
    assert_eq!(strip_fillers("it works um?!"), "it works?!");
    assert_eq!(strip_fillers("uh. ok"), "ok");
}

#[test]
fn capitals_follow_the_start_of_the_text() {
    assert_eq!(strip_fillers("um, so"), "so");
    assert_eq!(strip_fillers("Um, éclair"), "Éclair");
    assert_eq!(strip_fillers("Uh, ßtraße"), "SStraße");
    assert_eq!(strip_fillers("  Um so"), "so");
    assert_eq!(strip_fillers(""), "");
}

#[test]
fn white_space_is_normalised() {
    assert_eq!(strip_fillers("a\t b\n\nc\u{3000}d"), "a b c d");
}

#[test]
fn text_without_fillers_keeps_its_words() {
    let text = "The quick brown fox; jumps over - the dog.";
    assert_eq!(strip_fillers(text), text);
    assert_eq!(strip_fillers(&strip_fillers(text)), text);
}

#[test]
fn stripping_twice_changes_nothing_more() {
    for text in ["Um, so we ship Friday.", "uh ,, um , yes", "That works, mm-hmm.", "  a  b", "Um"] {
        let once = strip_fillers(text);
        assert_eq!(strip_fillers(&once), once);
    }
    assert_eq!(strip_fillers("uh ,, um , yes"), "yes");
    for text in ["um éclair à la carte", "uh, naïve", "um Émile", "Um, ßtraße", "Um, naïve"] {
        let once = strip_fillers(text);
        assert_eq!(strip_fillers(&once), once);
    }
}

#[test]
fn every_phrase_of_ordinary_length_is_kept() {
    // Letters with many case variants, and of every length in UTF-8.
    for c in ['a', 'k', 'ſ', 'θ', 'ω', 'µ', 'ǅ', 'ẞ', 'ᾳ', '中', 'ꙋ', '𐐨', '😀', '+', '\\', '~'] {
        let phrase: String = std::iter::repeat(c).take(SURE_CHARS).collect();
        let r = replacer(&[(phrase.as_str(), "x")]);
        assert_eq!(r.apply(&phrase), "x", "{c}");
    }
    let mixed: String = ('!'..='\u{2fff}').take(SURE_CHARS).collect();
    assert_eq!(replacer(&[(mixed.as_str(), "x")]).apply(&mixed), "x");
}

#[test]
fn a_phrase_that_is_too_long_is_left_out() {
    let phrase: String = std::iter::repeat('k').take(2_000_000).collect();
    let r = replacer(&[(phrase.as_str(), "x"), ("cat", "dog")]);
    assert_eq!(r.apply("cat"), "dog");
}

#[test]
fn replacements_keep_the_later_of_two() {
    let mut r = Replacements::new();
    r.insert("b".to_string(), "1".to_string());
    r.insert("a".to_string(), "2".to_string());
    r.insert("b".to_string(), "3".to_string());
    assert_eq!(r.len(), 2);
    assert_eq!(r.entry(0), ("a", "2"));
    assert_eq!(r.entry(1), ("b", "3"));
    let c = r.clone();
    assert_eq!(c.entry(1), ("b", "3"));
}

#[test]
fn longest_phrases_come_first() {
    let sorted = sort_longest_first(&replacements(&[("b", "1"), ("aaa", "2"), ("a", "3"), ("é", "4")]));
    let order: Vec<&str> = sorted.iter().map(|p| p.0.as_str()).collect();
    assert_eq!(order, vec!["aaa", "é", "a", "b"]);
    let phrases = phrases_of(&vec![
        ("  a b ".to_string(), "x".to_string()),
        (" \t".to_string(), "y".to_string()),
    ]);
    assert_eq!(phrases, vec![("a b".to_string(), "x".to_string())]);
}

#[test]
fn patterns_have_word_edges_where_words_are() {
    assert_eq!(phrase_pattern("can"), r"\bcan\b");
    assert_eq!(phrase_pattern("c++"), r"\bc\+\+");
    assert_eq!(phrase_pattern(".net"), r"\.net\b");
    assert_eq!(phrase_pattern("--"), r"\-\-");
    assert_eq!(phrase_pattern("a_"), r"\ba_\b");
}

#[test]
fn replacements_ignore_case_beyond_ascii() {
    let r = replacer(&[("école", "school"), ("straße", "street")]);
    assert_eq!(r.apply("L'ÉCOLE, Straße"), "L'school, street");
    assert_eq!(r.apply("écoles"), "écoles");
}

#[test]
fn replacements_chain_in_order() {
    let r = replacer(&[("aaa", "bb"), ("bb", "c")]);
    assert_eq!(r.apply("aaa bb"), "c c");
    assert_eq!(replacer(&[]).apply("as it is"), "as it is");
}

#[test]
fn white_space_is_what_unicode_says() {
    for n in 0..=0x10FFFFu32 {
        if let Some(c) = char::from_u32(n) {
            assert_eq!(CharSet::White.contains(c), c.is_whitespace(), "{n:x}");
        }
    }
}

#[test]
fn edges_are_what_is_no_part_of_a_word() {
    for c in ['a', 'Z', '9', 'é', 'ß', '中', '-'] {
        assert!(!CharSet::Edge.contains(c));
    }
    for c in ['.', ',', '\'', '…', '_', ' '] {
        assert!(CharSet::Edge.contains(c));
    }
}

#[test]
fn texts_are_ordered_like_strings() {
    let all = ["", "a", "ab", "b", "Z", "é", "\u{7f}", "\u{80}", "\u{ffff}", "\u{10000}", "aé"];
    for a in all {
        for b in all {
            assert_eq!(text_before(a, b), a < b, "{a} {b}");
            assert_eq!(same_text(a, b), a == b);
        }
    }
}

#[test]
fn words_and_trims_are_those_of_str() {
    for s in ["", " ", "a", "  a  b ", "\u{a0}x\u{2003}", "one two\nthree", "é  "] {
        assert_eq!(trim_text(s), s.trim());
        let words: Vec<String> = split_words(&chars_of(s)).iter().map(string_of).collect();
        let expected: Vec<String> = s.split_whitespace().map(str::to_string).collect();
        assert_eq!(words, expected);
        let joined = join_words(&split_words(&chars_of(s)));
        assert_eq!(string_of(&joined), expected.join(" "));
    }
}

use dikt::domain::types::VocabularyEntry;
use dikt::domain::vocabulary::{
    apply_replacement, apply_vocabulary_replacements, build_vocabulary_prompt,
    build_word_boundary_pattern, is_word_char,
};
use dikt::text::{ends_with, is_blank, str_eq, trim, trim_end_matches};

fn entry(id: &str, word: &str, replacements: &[&str], enabled: bool) -> VocabularyEntry {
    VocabularyEntry {
        id: id.to_string(),
        word: word.to_string(),
        replacements: replacements.iter().map(|r| r.to_string()).collect(),
        enabled,
    }
}

#[test]
fn build_prompt_returns_none_for_empty_vocabulary() {
    assert!(build_vocabulary_prompt(&[]).is_none());
}

#[test]
fn build_prompt_uses_enabled_words_only() {
    let vocabulary = vec![
        VocabularyEntry {
            id: "1".to_string(),
            word: "Kubernetes".to_string(),
            replacements: vec!["cube and eighties".to_string()],
            enabled: true,
        },
        VocabularyEntry {
            id: "2".to_string(),
            word: "Anthropic".to_string(),
            replacements: vec!["anthropic".to_string()],
            enabled: false,
        },
    ];

    let prompt = build_vocabulary_prompt(&vocabulary).unwrap();
    assert_eq!(prompt, "Vocabulary: Kubernetes");
}

#[test]
fn apply_replacements_matches_word_boundaries() {
    let vocabulary = vec![VocabularyEntry {
        id: "1".to_string(),
        word: "the".to_string(),
        replacements: vec!["teh".to_string()],
        enabled: true,
    }];

    assert_eq!(
        apply_vocabulary_replacements("teh cat, other", &vocabulary),
        "the cat, other"
    );
}

#[test]
fn apply_replacements_is_case_insensitive() {
    let vocabulary = vec![VocabularyEntry {
        id: "1".to_string(),
        word: "Kubernetes".to_string(),
        replacements: vec!["cube and eighties".to_string()],
        enabled: true,
    }];

    assert_eq!(
        apply_vocabulary_replacements("CUBE AND EIGHTIES", &vocabulary),
        "Kubernetes"
    );
}

#[test]
fn build_prompt_returns_none_when_only_entry_is_disabled() {
    let vocabulary = vec![entry("1", "Anthropic", &[], false)];
    assert!(build_vocabulary_prompt(&vocabulary).is_none());
}

#[test]
fn build_prompt_keeps_insertion_order_and_separates_with_commas() {
    let vocabulary = vec![
        entry("1", "Zebra", &[], true),
        entry("2", "apple", &[], true),
        entry("3", "Mango", &[], false),
        entry("4", "kiwi", &[], true),
    ];
    assert_eq!(
        build_vocabulary_prompt(&vocabulary).unwrap(),
        "Vocabulary: Zebra, apple, kiwi"
    );
}

#[test]
fn build_prompt_trims_words_and_drops_blank_ones() {
    let vocabulary = vec![
        entry("1", "  Kubernetes\t", &[], true),
        entry("2", "   ", &[], true),
        entry("3", "", &[], true),
        entry("4", "\u{a0}Tauri\u{2003}", &[], true),
    ];
    assert_eq!(
        build_vocabulary_prompt(&vocabulary).unwrap(),
        "Vocabulary: Kubernetes, Tauri"
    );
}

#[test]
fn build_prompt_names_at_most_fifty_words() {
    let vocabulary: Vec<VocabularyEntry> =
        (0..60).map(|i| entry("x", &format!("w{i}"), &[], true)).collect();
    let prompt = build_vocabulary_prompt(&vocabulary).unwrap();
    let words: Vec<&str> = prompt["Vocabulary: ".len()..].split(", ").collect();
    assert_eq!(words.len(), 50);
    assert_eq!(words[0], "w0");
    assert_eq!(words[49], "w49");
}

#[test]
fn build_prompt_stops_at_the_first_word_that_exceeds_the_budget() {
    let long = "a".repeat(700);
    let too_long = "b".repeat(100);
    let vocabulary = vec![
        entry("1", &long, &[], true),
        entry("2", &too_long, &[], true),
        entry("3", "c", &[], true),
    ];
    // 12 + 700 = 712; adding ", " and 100 more would give 814 > 800, so the
    // hint ends there even though "c" alone would still fit.
    let prompt = build_vocabulary_prompt(&vocabulary).unwrap();
    assert_eq!(prompt, format!("Vocabulary: {long}"));
}

#[test]
fn build_prompt_accepts_a_hint_of_exactly_the_budget() {
    let first = "a".repeat(388);
    let second = "b".repeat(398);
    let vocabulary = vec![entry("1", &first, &[], true), entry("2", &second, &[], true)];
    let prompt = build_vocabulary_prompt(&vocabulary).unwrap();
    assert_eq!(prompt.chars().count(), 800);
    assert_eq!(prompt, format!("Vocabulary: {first}, {second}"));
}

#[test]
fn build_prompt_returns_none_when_the_first_word_alone_is_too_long() {
    let vocabulary = vec![entry("1", &"a".repeat(789), &[], true), entry("2", "b", &[], true)];
    assert!(build_vocabulary_prompt(&vocabulary).is_none());
    let vocabulary = vec![entry("1", &"a".repeat(788), &[], true)];
    assert_eq!(build_vocabulary_prompt(&vocabulary).unwrap().chars().count(), 800);
}

#[test]
fn build_prompt_counts_characters_not_bytes() {
    let word = "é".repeat(788);
    let vocabulary = vec![entry("1", &word, &[], true)];
    assert_eq!(
        build_vocabulary_prompt(&vocabulary).unwrap(),
        format!("Vocabulary: {word}")
    );
}

#[test]
fn word_chars_are_letters_digits_and_underscore() {
    assert!(is_word_char('a'));
    assert!(is_word_char('Z'));
    assert!(is_word_char('7'));
    assert!(is_word_char('_'));
    assert!(is_word_char('é'));
    assert!(!is_word_char(' '));
    assert!(!is_word_char('-'));
    assert!(!is_word_char('.'));
}

#[test]
fn pattern_anchors_only_where_the_phrase_has_word_characters() {
    assert_eq!(build_word_boundary_pattern("teh"), "(?iu)\\bteh\\b");
    assert_eq!(build_word_boundary_pattern("co2"), "(?iu)\\bco2\\b");
    assert_eq!(build_word_boundary_pattern("c++"), "(?iu)\\bc\\+\\+");
    assert_eq!(build_word_boundary_pattern(".net"), "(?iu)\\.net\\b");
    assert_eq!(build_word_boundary_pattern("?!"), "(?iu)\\?!");
    assert_eq!(build_word_boundary_pattern(""), "(?iu)");
}

#[test]
fn pattern_escapes_every_meta_character() {
    assert_eq!(
        build_word_boundary_pattern("\\.+*?()|[]{}^$#&-~"),
        "(?iu)\\\\\\.\\+\\*\\?\\(\\)\\|\\[\\]\\{\\}\\^\\$\\#\\&\\-\\~"
    );
    assert_eq!(build_word_boundary_pattern("%/!\"e"), "(?iu)%/!\"e\\b");
}

#[test]
fn replacements_do_not_match_inside_longer_words() {
    let vocabulary = vec![entry("1", "the", &["teh"], true)];
    assert_eq!(
        apply_vocabulary_replacements("tehran teh ateh", &vocabulary),
        "tehran the ateh"
    );
}

#[test]
fn phrases_ending_in_punctuation_match_inside_larger_strings() {
    let vocabulary = vec![entry("1", "C++", &["c plus plus!"], true)];
    assert_eq!(
        apply_vocabulary_replacements("I like c plus plus!now", &vocabulary),
        "I like C++now"
    );
}

#[test]
fn replacements_replace_every_match() {
    let vocabulary = vec![entry("1", "the", &["teh"], true)];
    assert_eq!(
        apply_vocabulary_replacements("teh Teh TEH", &vocabulary),
        "the the the"
    );
}

#[test]
fn disabled_and_blank_entries_change_nothing() {
    let vocabulary = vec![
        entry("1", "the", &["teh"], false),
        entry("2", "   ", &["cat"], true),
        entry("3", "dog", &["  ", ""], true),
    ];
    assert_eq!(
        apply_vocabulary_replacements("teh cat", &vocabulary),
        "teh cat"
    );
    assert_eq!(apply_vocabulary_replacements("teh cat", &[]), "teh cat");
}

#[test]
fn later_replacements_act_on_earlier_results() {
    let vocabulary = vec![
        entry("1", "cloud code", &["clod code"], true),
        entry("2", "Cloud Coder", &["cloud code"], true),
    ];
    assert_eq!(
        apply_vocabulary_replacements("open clod code now", &vocabulary),
        "open Cloud Coder now"
    );
    let reversed = vec![
        entry("2", "Cloud Coder", &["cloud code"], true),
        entry("1", "cloud code", &["clod code"], true),
    ];
    assert_eq!(
        apply_vocabulary_replacements("open clod code now", &reversed),
        "open cloud code now"
    );
}

#[test]
fn only_the_first_ten_phrases_of_an_entry_apply() {
    let phrases: Vec<String> = (0..12).map(|i| format!("p{i}x")).collect();
    let refs: Vec<&str> = phrases.iter().map(|p| p.as_str()).collect();
    let vocabulary = vec![entry("1", "W", &refs, true)];
    assert_eq!(
        apply_vocabulary_replacements("p0x p9x p10x p11x", &vocabulary),
        "W W p10x p11x"
    );
}

#[test]
fn phrases_are_trimmed_but_the_word_is_used_as_written() {
    let vocabulary = vec![entry("1", " the ", &["  teh  "], true)];
    assert_eq!(apply_vocabulary_replacements("teh", &vocabulary), " the ");
}

#[test]
fn a_single_replacement_is_applied_or_skipped() {
    assert_eq!(apply_replacement("teh cat".to_string(), "the", "teh"), "the cat");
    assert_eq!(apply_replacement("teh cat".to_string(), "the", "   "), "teh cat");
    assert_eq!(apply_replacement("a.b axb".to_string(), "!", "a.b"), "! axb");
}

#[test]
fn a_huge_phrase_does_not_stop_the_rewriting() {
    let huge = "ü".repeat(3_000_000);
    let vocabulary = vec![entry("1", "x", &[&huge], true), entry("2", "the", &["teh"], true)];
    assert_eq!(apply_vocabulary_replacements("teh", &vocabulary), "the");
}

#[test]
fn trim_removes_unicode_whitespace_on_both_sides() {
    assert_eq!(trim("  a b \t\n"), "a b");
    assert_eq!(trim("\u{3000}x\u{2028}"), "x");
    assert_eq!(trim("x"), "x");
    assert_eq!(trim(" \t "), "");
    assert_eq!(trim(""), "");
    assert!(is_blank(" \u{a0} "));
    assert!(!is_blank(" . "));
}

#[test]
fn trailing_characters_and_suffixes() {
    assert_eq!(trim_end_matches("a/b///", '/'), "a/b");
    assert_eq!(trim_end_matches("///", '/'), "");
    assert_eq!(trim_end_matches("abc", '/'), "abc");
    assert!(ends_with("hello", "llo"));
    assert!(ends_with("hello", ""));
    assert!(ends_with("hello", "hello"));
    assert!(!ends_with("hello", "hell"));
    assert!(!ends_with("lo", "hello"));
}

#[test]
fn a_word_with_a_dollar_sign_is_inserted_as_written() {
    let vocabulary = vec![entry("1", "$5", &["five bucks"], true)];
    assert_eq!(apply_vocabulary_replacements("five bucks", &vocabulary), "$5");
    let vocabulary = vec![
        entry("1", "$0 and ${1}", &["that"], true),
        entry("2", "US$", &["dollars"], true),
        entry("3", "$name", &["who"], true),
    ];
    assert_eq!(
        apply_vocabulary_replacements("that costs 3 dollars, who knows", &vocabulary),
        "$0 and ${1} costs 3 US$, $name knows"
    );
    assert_eq!(apply_replacement("a b".to_string(), "$$", "b"), "a $$");
}

#[test]
fn whitespace_is_exactly_the_unicode_white_space_characters() {
    let listed = |c: char| {
        matches!(
            c,
            '\u{9}'..='\u{d}'
                | ' '
                | '\u{85}'
                | '\u{a0}'
                | '\u{1680}'
                | '\u{2000}'..='\u{200a}'
                | '\u{2028}'
                | '\u{2029}'
                | '\u{202f}'
                | '\u{205f}'
                | '\u{3000}'
        )
    };
    let mut buffer = [0u8; 4];
    let mut count = 0;
    for code in 0..=0x10FFFFu32 {
        if let Some(c) = char::from_u32(code) {
            let text: &str = c.encode_utf8(&mut buffer);
            assert_eq!(is_blank(text), listed(c), "U+{code:04X}");
            if listed(c) {
                count += 1;
            }
        }
    }
    assert_eq!(count, 25);
}

#[test]
fn strings_are_equal_when_they_hold_the_same_characters() {
    assert!(str_eq("", ""));
    assert!(str_eq("groq", "groq"));
    assert!(!str_eq("groq", "groq "));
    assert!(!str_eq("groq", "Groq"));
    assert!(!str_eq("a", ""));
    assert!(str_eq("é", "\u{e9}"));
    assert!(!str_eq("é", "e\u{301}"));
}

//! The vocabulary rules: the hint sent along with a recording, and the
//! rewriting of a transcript towards the user's canonical words.

use crate::domain::types::{EntryView, VocabularyEntry};
use crate::text::{alphanumeric, blank, is_alphanumeric, is_blank, trim, trimmed};
use vstd::prelude::*;

verus! {

/// How many words a hint names at most.
pub const MAX_PROMPT_ENTRIES: usize = 50;

/// How many characters a hint holds at most.
pub const MAX_PROMPT_CHARS: usize = 800;

/// How many replacements of one entry are applied at most.
pub const MAX_REPLACEMENTS_PER_ENTRY: usize = 10;

// ---------------------------------------------------------------------------
// The hint
// ---------------------------------------------------------------------------
/// What every hint starts with.
pub open spec fn prompt_prefix() -> Seq<char> {
    "Vocabulary: "@
}

/// What stands between two words of a hint.
pub open spec fn prompt_separator() -> Seq<char> {
    ", "@
}

/// Whether an entry contributes its word to the hint.
pub open spec fn usable(entry: EntryView) -> bool {
    entry.enabled && !blank(entry.word)
}

/// The trimmed words of the usable entries, in vocabulary order.
pub open spec fn usable_words(vocabulary: Seq<EntryView>) -> Seq<Seq<char>>
    decreases vocabulary.len(),
{
    if vocabulary.len() == 0 {
        Seq::empty()
    } else {
        let before = usable_words(vocabulary.drop_last());
        if usable(vocabulary.last()) {
            before.push(trimmed(vocabulary.last().word))
        } else {
            before
        }
    }
}

/// The first `limit` items of `items`, or all of them if there are fewer.
pub open spec fn at_most<A>(items: Seq<A>, limit: nat) -> Seq<A> {
    if items.len() > limit {
        items.take(limit as int)
    } else {
        items
    }
}

/// The words a hint may name: the first [`MAX_PROMPT_ENTRIES`] usable ones.
pub open spec fn prompt_words(vocabulary: Seq<EntryView>) -> Seq<Seq<char>> {
    at_most(usable_words(vocabulary), MAX_PROMPT_ENTRIES as nat)
}

/// The prefix followed by `words`, separated by commas.
pub open spec fn joined(words: Seq<Seq<char>>) -> Seq<char>
    decreases words.len(),
{
    if words.len() == 0 {
        prompt_prefix()
    } else if words.len() == 1 {
        prompt_prefix() + words[0]
    } else {
        joined(words.drop_last()) + prompt_separator() + words.last()
    }
}

/// How many leading words can be joined without exceeding [`MAX_PROMPT_CHARS`]:
/// the count stops growing at the first word that would not fit.
pub open spec fn fitting(words: Seq<Seq<char>>) -> nat
    decreases words.len(),
{
    if words.len() == 0 {
        0
    } else {
        let before = fitting(words.drop_last());
        if before == words.len() - 1 && joined(words).len() <= MAX_PROMPT_CHARS {
            words.len()
        } else {
            before
        }
    }
}

/// The hint for a vocabulary, if it names any word at all.
pub open spec fn prompt_of(vocabulary: Seq<EntryView>) -> Option<Seq<char>> {
    let words = prompt_words(vocabulary);
    let count = fitting(words);
    if count == 0 {
        None
    } else {
        Some(joined(words.take(count as int)))
    }
}

proof fn lemma_fitting_bounds(words: Seq<Seq<char>>)
    ensures
        fitting(words) <= words.len(),
        fitting(words) > 0 ==> joined(words.take(fitting(words) as int)).len() <= MAX_PROMPT_CHARS,
    decreases words.len(),
{
    if words.len() > 0 {
        let shorter = words.drop_last();
        lemma_fitting_bounds(shorter);
        if fitting(words) == words.len() {
            assert(words.take(words.len() as int) =~= words);
        } else {
            assert(shorter.take(fitting(shorter) as int) =~= words.take(fitting(words) as int));
        }
    }
}

proof fn lemma_fitting_stalls(words: Seq<Seq<char>>, at: int, upto: int)
    requires
        0 <= at <= upto <= words.len(),
        fitting(words.take(at)) < at,
    ensures
        fitting(words.take(upto)) == fitting(words.take(at)),
    decreases upto - at,
{
    if at < upto {
        lemma_fitting_stalls(words, at, upto - 1);
        assert(words.take(upto).drop_last() =~= words.take(upto - 1));
    }
}

proof fn lemma_usable_words_len(vocabulary: Seq<EntryView>)
    ensures
        usable_words(vocabulary).len() <= vocabulary.len(),
        forall|k: int| 0 <= k < usable_words(vocabulary).len() ==> usable_words(vocabulary)[k].len() > 0,
    decreases vocabulary.len(),
{
    if vocabulary.len() > 0 {
        lemma_usable_words_len(vocabulary.drop_last());
    }
}

proof fn lemma_usable_words_none(vocabulary: Seq<EntryView>)
    requires
        forall|k: int| 0 <= k < vocabulary.len() ==> !usable(vocabulary[k]),
    ensures
        usable_words(vocabulary).len() == 0,
    decreases vocabulary.len(),
{
    if vocabulary.len() > 0 {
        lemma_usable_words_none(vocabulary.drop_last());
    }
}

proof fn lemma_joined_len(words: Seq<Seq<char>>)
    ensures
        joined(words).len() >= prompt_prefix().len(),
        joined(words).subrange(0, prompt_prefix().len() as int) == prompt_prefix(),
    decreases words.len(),
{
    if words.len() > 1 {
        lemma_joined_len(words.drop_last());
    }
}

/// A vocabulary without a usable entry (an empty one, or one whose entries are
/// all disabled or blank) has no hint.
pub proof fn lemma_no_usable_entry_no_prompt(vocabulary: Seq<EntryView>)
    requires
        forall|k: int| 0 <= k < vocabulary.len() ==> !usable(vocabulary[k]),
    ensures
        prompt_of(vocabulary) is None,
{
    lemma_usable_words_none(vocabulary);
}

/// A hint starts with the prefix, never exceeds [`MAX_PROMPT_CHARS`]
/// characters, and names at least one word.
pub proof fn lemma_prompt_within_budget(vocabulary: Seq<EntryView>)
    ensures
        prompt_of(vocabulary) matches Some(hint) ==> {
            &&& hint.len() <= MAX_PROMPT_CHARS
            &&& hint.len() > prompt_prefix().len()
            &&& hint.subrange(0, prompt_prefix().len() as int) == prompt_prefix()
        },
{
    let words = prompt_words(vocabulary);
    let count = fitting(words);
    lemma_fitting_bounds(words);
    if count > 0 {
        let named = words.take(count as int);
        lemma_joined_len(named);
        lemma_usable_words_len(vocabulary);
        if named.len() > 1 {
            lemma_joined_len(named.drop_last());
        }
    }
}

/// The hint of a vocabulary with exactly one usable entry whose trimmed word
/// fits is the prefix followed by that word.
pub proof fn lemma_single_word_prompt(vocabulary: Seq<EntryView>, at: int)
    requires
        0 <= at < vocabulary.len(),
        usable(vocabulary[at]),
        forall|k: int| 0 <= k < vocabulary.len() && k != at ==> !usable(vocabulary[k]),
        prompt_prefix().len() + trimmed(vocabulary[at].word).len() <= MAX_PROMPT_CHARS,
    ensures
        prompt_of(vocabulary) == Some(prompt_prefix() + trimmed(vocabulary[at].word)),
{
    lemma_single_usable(vocabulary, at);
    let words = usable_words(vocabulary);
    assert(fitting(words.drop_last()) == 0);
}

proof fn lemma_single_usable(vocabulary: Seq<EntryView>, at: int)
    requires
        0 <= at < vocabulary.len(),
        usable(vocabulary[at]),
        forall|k: int| 0 <= k < vocabulary.len() && k != at ==> !usable(vocabulary[k]),
    ensures
        usable_words(vocabulary) == seq![trimmed(vocabulary[at].word)],
    decreases vocabulary.len(),
{
    let shorter = vocabulary.drop_last();
    if at == vocabulary.len() - 1 {
        lemma_usable_words_none(shorter);
    } else {
        lemma_single_usable(shorter, at);
    }
}

/// Collects the words a hint may name.
fn collect_prompt_words<'a>(vocabulary: &'a [VocabularyEntry]) -> (words: Vec<&'a str>)
    ensures
        words.deep_view() == prompt_words(vocabulary.deep_view()),
{
    let mut words: Vec<&'a str> = Vec::new();
    let mut i: usize = 0;
    while i < vocabulary.len()
        invariant
            0 <= i <= vocabulary.len(),
            words.len() <= MAX_PROMPT_ENTRIES,
            words.deep_view() == prompt_words(vocabulary.deep_view().take(i as int)),
        decreases vocabulary.len() - i,
    {
        let ghost seen = vocabulary.deep_view().take(i as int);
        proof {
            assert(vocabulary.deep_view().take(i + 1).drop_last() =~= seen);
        }
        let entry = &vocabulary[i];
        if entry.enabled && !is_blank(entry.word.as_str()) {
            let word = trim(entry.word.as_str());
            if words.len() < MAX_PROMPT_ENTRIES {
                proof {
                    assert(words.deep_view() == usable_words(seen));
                }
                words.push(word);
            }
        }
        i += 1;
    }
    proof {
        assert(vocabulary.deep_view().take(vocabulary.len() as int) =~= vocabulary.deep_view());
    }
    words
}

/// Builds the hint that accompanies a recording: `"Vocabulary: "` followed by
/// the trimmed words of the enabled entries, comma separated. At most
/// [`MAX_PROMPT_ENTRIES`] words are considered, and words are added only as
/// long as the hint stays within [`MAX_PROMPT_CHARS`] characters. A vocabulary
/// that yields no word has no hint.
pub fn build_vocabulary_prompt(vocabulary: &[VocabularyEntry]) -> (hint: Option<String>)
    ensures
        hint.deep_view() == prompt_of(vocabulary.deep_view()),
{
    let words = collect_prompt_words(vocabulary);
    let ghost named = words.deep_view();
    let mut prompt = String::from_str("Vocabulary: ");
    let mut length: usize = 12;
    let mut count: usize = 0;
    proof {
        reveal_strlit("Vocabulary: ");
        reveal_strlit(", ");
    }
    while count < words.len()
        invariant_except_break
            0 <= count <= words.len(),
            fitting(named.take(count as int)) == count,
        invariant
            named == words.deep_view(),
            0 <= count <= words.len(),
            prompt_prefix().len() == 12,
            prompt_separator().len() == 2,
            prompt@ == joined(named.take(count as int)),
            length == prompt@.len(),
            length <= MAX_PROMPT_CHARS,
        ensures
            fitting(named) == count || (count == words.len() && fitting(named.take(count as int))
                == count),
        decreases words.len() - count,
    {
        let word = words[count];
        let separator: usize = if count == 0 {
            0
        } else {
            2
        };
        let word_length = word.unicode_len();
        let ghost longer = named.take(count + 1);
        proof {
            assert(longer.drop_last() =~= named.take(count as int));
            assert(joined(longer).len() == length + separator + word_length);
        }
        let room = MAX_PROMPT_CHARS - length;
        if separator > room || word_length > room - separator {
            proof {
                lemma_fitting_stalls(named, count + 1, named.len() as int);
                assert(named.take(named.len() as int) =~= named);
            }
            break ;
        }
        if count > 0 {
            prompt.append(", ");
        }
        prompt.append(word);
        length = length + separator + word_length;
        count += 1;
    }
    proof {
        if count == words.len() {
            assert(named.take(count as int) =~= named);
        }
    }
    if count == 0 {
        None
    } else {
        Some(prompt)
    }
}

// ---------------------------------------------------------------------------
// Patterns
// ---------------------------------------------------------------------------
/// Whether `c` counts as part of a word: a letter, a digit or an underscore.
pub open spec fn word_char(c: char) -> bool {
    alphanumeric(c) || c == '_'
}

/// Tells whether `ch` counts as part of a word.
pub fn is_word_char(ch: char) -> (b: bool)
    ensures
        b == word_char(ch),
{
    is_alphanumeric(ch) || ch == '_'
}

/// The characters that mean something to the pattern language and are
/// therefore written with a backslash in front when meant literally.
pub open spec fn meta_char(c: char) -> bool {
    c == '\\' || c == '.' || c == '+' || c == '*' || c == '?' || c == '(' || c == ')' || c == '|'
        || c == '[' || c == ']' || c == '{' || c == '}' || c == '^' || c == '$' || c == '#' || c
        == '&' || c == '-' || c == '~'
}

/// `text` with a backslash in front of every [`meta_char`].
pub open spec fn escaped(text: Seq<char>) -> Seq<char>
    decreases text.len(),
{
    if text.len() == 0 {
        Seq::empty()
    } else if meta_char(text.last()) {
        escaped(text.drop_last()).push('\\').push(text.last())
    } else {
        escaped(text.drop_last()).push(text.last())
    }
}

/// `regex::escape`: every character of the input is copied in order, each
/// meta character of the pattern language preceded by one backslash.
#[verifier::external_body]
fn escape(text: &str) -> (literal: String)
    ensures
        literal@ == escaped(text@),
{
    regex::escape(text)
}

/// What opens every pattern: matching ignores case and is Unicode aware.
pub open spec fn pattern_flags() -> Seq<char> {
    "(?iu)"@
}

/// The word-boundary assertion of the pattern language.
pub open spec fn boundary() -> Seq<char> {
    "\\b"@
}

/// The pattern that finds `replacement` literally, ignoring case. A word
/// boundary is asked for in front only if `replacement` starts with a word
/// character, and behind only if it ends with one.
pub open spec fn boundary_pattern(replacement: Seq<char>) -> Seq<char> {
    let front = if replacement.len() > 0 && word_char(replacement.first()) {
        boundary()
    } else {
        Seq::empty()
    };
    let back = if replacement.len() > 0 && word_char(replacement.last()) {
        boundary()
    } else {
        Seq::empty()
    };
    pattern_flags() + front + escaped(replacement) + back
}

/// Builds the pattern that finds `replacement` in a transcript.
pub fn build_word_boundary_pattern(replacement: &str) -> (pattern: String)
    ensures
        pattern@ == boundary_pattern(replacement@),
{
    let literal = escape(replacement);
    let length = replacement.unicode_len();
    let starts_with_word_char = length > 0 && is_word_char(replacement.get_char(0));
    let ends_with_word_char = length > 0 && is_word_char(replacement.get_char(length - 1));
    let mut pattern = String::from_str("(?iu)");
    if starts_with_word_char {
        pattern.append("\\b");
    }
    pattern.append(literal.as_str());
    if ends_with_word_char {
        pattern.append("\\b");
    }
    pattern
}

// ---------------------------------------------------------------------------
// Rewriting
// ---------------------------------------------------------------------------
/// The pattern text a compiled expression was made from, as `Regex::as_str` gives it.
pub uninterp spec fn regex_source(expression: regex::Regex) -> Seq<char>;

/// Whether `Regex::new` accepts `pattern`.
pub uninterp spec fn regex_accepts(pattern: Seq<char>) -> bool;

/// What `Regex::replace_all` returns for the expression compiled from
/// `pattern`, the text `haystack` and the literal replacement `replacement`:
/// `haystack` with every match, found from left to right without overlap,
/// given way to `replacement` as it is written. A dollar sign in
/// `replacement` means a dollar sign and never a part of the match.
pub uninterp spec fn regex_replaced(
    pattern: Seq<char>,
    haystack: Seq<char>,
    replacement: Seq<char>,
) -> Seq<char>;

#[verifier::external_type_specification]
#[verifier::external_body]
pub struct ExRegex(regex::Regex);

#[verifier::external_type_specification]
#[verifier::external_body]
pub struct ExRegexError(regex::Error);

/// `Regex::new`: whether a pattern compiles depends on the pattern alone, and
/// the compiled expression remembers the pattern it was made from.
#[verifier::external_body]
fn compile(pattern: &str) -> (compiled: Result<regex::Regex, regex::Error>)
    ensures
        compiled is Ok <==> regex_accepts(pattern@),
        compiled matches Ok(expression) ==> regex_source(expression) == pattern@,
{
    regex::Regex::new(pattern)
}

/// `Regex::replace_all` with `NoExpand`, the replacement taken literally:
/// the result depends on the expression's pattern, the text and the
/// replacement alone.
#[verifier::external_body]
fn replace_all(expression: &regex::Regex, haystack: &str, replacement: &str) -> (out: String)
    ensures
        out@ == regex_replaced(regex_source(*expression), haystack@, replacement@),
{
    expression.replace_all(haystack, regex::NoExpand(replacement)).into_owned()
}

/// `text` after one replacement phrase of an entry has been applied: every
/// match of the phrase's pattern gives way to `word`, written as it stands
/// in the entry, whatever characters it holds. A blank phrase, or one whose
/// pattern does not compile, leaves the text as it is.
pub open spec fn rewritten_once(text: Seq<char>, word: Seq<char>, phrase: Seq<char>) -> Seq<char> {
    let wanted = trimmed(phrase);
    if wanted.len() == 0 {
        text
    } else if regex_accepts(boundary_pattern(wanted)) {
        regex_replaced(boundary_pattern(wanted), text, word)
    } else {
        text
    }
}

/// `text` after the given phrases have been applied one after the other.
pub open spec fn rewritten_by_phrases(
    text: Seq<char>,
    word: Seq<char>,
    phrases: Seq<Seq<char>>,
) -> Seq<char>
    decreases phrases.len(),
{
    if phrases.len() == 0 {
        text
    } else {
        rewritten_once(
            rewritten_by_phrases(text, word, phrases.drop_last()),
            word,
            phrases.last(),
        )
    }
}

/// `text` after one entry has been applied: a usable entry applies its first
/// [`MAX_REPLACEMENTS_PER_ENTRY`] phrases, any other entry nothing.
pub open spec fn rewritten_by_entry(text: Seq<char>, entry: EntryView) -> Seq<char> {
    if usable(entry) {
        rewritten_by_phrases(
            text,
            entry.word,
            at_most(entry.replacements, MAX_REPLACEMENTS_PER_ENTRY as nat),
        )
    } else {
        text
    }
}

/// `text` after a whole vocabulary has been applied, entry by entry in order,
/// each entry working on what the earlier ones left.
pub open spec fn rewritten(text: Seq<char>, vocabulary: Seq<EntryView>) -> Seq<char>
    decreases vocabulary.len(),
{
    if vocabulary.len() == 0 {
        text
    } else {
        rewritten_by_entry(rewritten(text, vocabulary.drop_last()), vocabulary.last())
    }
}

/// Rewriting with an empty vocabulary, or with one that has no usable entry,
/// returns the text unchanged.
pub proof fn lemma_rewritten_without_usable_entry(text: Seq<char>, vocabulary: Seq<EntryView>)
    requires
        forall|k: int| 0 <= k < vocabulary.len() ==> !usable(vocabulary[k]),
    ensures
        rewritten(text, vocabulary) == text,
    decreases vocabulary.len(),
{
    if vocabulary.len() > 0 {
        lemma_rewritten_without_usable_entry(text, vocabulary.drop_last());
    }
}

/// Rewriting with two vocabularies one after the other is rewriting with
/// their concatenation: later entries act on what earlier ones produced.
pub proof fn lemma_rewritten_in_sequence(
    text: Seq<char>,
    first: Seq<EntryView>,
    second: Seq<EntryView>,
)
    ensures
        rewritten(text, first + second) == rewritten(rewritten(text, first), second),
    decreases second.len(),
{
    if second.len() > 0 {
        lemma_rewritten_in_sequence(text, first, second.drop_last());
        assert((first + second).drop_last() =~= first + second.drop_last());
    }
}

/// Applies one replacement phrase of an entry to `text`.
pub fn apply_replacement(text: String, word: &str, phrase: &str) -> (out: String)
    ensures
        out@ == rewritten_once(text@, word@, phrase@),
{
    let wanted = trim(phrase);
    if wanted.unicode_len() == 0 {
        return text;
    }
    let pattern = build_word_boundary_pattern(wanted);
    match compile(pattern.as_str()) {
        Ok(expression) => replace_all(&expression, text.as_str(), word),
        Err(_) => text,
    }
}

/// Applies one entry to `text`.
fn apply_entry(text: String, entry: &VocabularyEntry) -> (out: String)
    ensures
        out@ == rewritten_by_entry(text@, entry@),
{
    if !entry.enabled || is_blank(entry.word.as_str()) {
        return text;
    }
    let ghost before = text@;
    let ghost phrases = at_most(entry@.replacements, MAX_REPLACEMENTS_PER_ENTRY as nat);
    let limit = if entry.replacements.len() > MAX_REPLACEMENTS_PER_ENTRY {
        MAX_REPLACEMENTS_PER_ENTRY
    } else {
        entry.replacements.len()
    };
    let mut result = text;
    let mut i: usize = 0;
    while i < limit
        invariant
            0 <= i <= limit,
            limit == phrases.len(),
            limit <= entry.replacements.len(),
            phrases == at_most(entry@.replacements, MAX_REPLACEMENTS_PER_ENTRY as nat),
            result@ == rewritten_by_phrases(before, entry.word@, phrases.take(i as int)),
        decreases limit - i,
    {
        proof {
            assert(phrases.take(i + 1).drop_last() =~= phrases.take(i as int));
        }
        result = apply_replacement(result, entry.word.as_str(), entry.replacements[i].as_str());
        i += 1;
    }
    proof {
        assert(phrases.take(limit as int) =~= phrases);
    }
    result
}

/// Rewrites a transcript towards the vocabulary's canonical words. For every
/// enabled entry with a non-blank word, each of its first
/// [`MAX_REPLACEMENTS_PER_ENTRY`] replacement phrases is searched for,
/// ignoring case and respecting word boundaries where the phrase itself
/// starts or ends with a word character, and every match gives way to the
/// entry's word. Entries and phrases are applied in order, each on the result
/// of the one before. A phrase whose pattern does not compile is skipped.
pub fn apply_vocabulary_replacements(text: &str, vocabulary: &[VocabularyEntry]) -> (out: String)
    ensures
        out@ == rewritten(text@, vocabulary.deep_view()),
{
    let mut result = text.to_owned();
    let mut i: usize = 0;
    while i < vocabulary.len()
        invariant
            0 <= i <= vocabulary.len(),
            result@ == rewritten(text@, vocabulary.deep_view().take(i as int)),
        decreases vocabulary.len() - i,
    {
        proof {
            assert(vocabulary.deep_view().take(i + 1).drop_last() =~= vocabulary.deep_view().take(
                i as int,
            ));
        }
        result = apply_entry(result, &vocabulary[i]);
        i += 1;
    }
    proof {
        assert(vocabulary.deep_view().take(vocabulary.len() as int) =~= vocabulary.deep_view());
    }
    result
}

} // verus!

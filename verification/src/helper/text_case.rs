//! The ways of writing a name that is made of several words.

use vstd::prelude::*;
use vstd::string::*;
use vstd::utf8::*;

use crate::builtin::text::{
    joined,
    lowercase,
    lowercase_of,
    unicode_whitespace,
    uppercase,
    uppercase_of,
};
use crate::render::texts;

verus! {

/// A way of writing a name.
#[derive(Clone, Copy, Debug, PartialEq, Eq)]
pub enum TextCase {
    /// `hello world`: all in lower case, nothing else changed.
    Lower,
    /// `HELLO WORLD`: all in upper case, nothing else changed.
    Upper,
    /// Known by name only: a name converts to nothing.
    Sentence,
    /// `hello_world`
    Snake,
    /// `helloWorld`
    Camel,
    /// `HelloWorld`
    Pascal,
    /// `hello-world`
    Kebab,
    /// `HELLO_WORLD`
    ScreamingSnake,
}

/// Whether a character is in upper case, as `char::is_uppercase` of std
/// says: whether it has the Unicode property `Uppercase`.
pub uninterp spec fn unicode_uppercase(c: char) -> bool;

/// Whether a character is in lower case, as `char::is_lowercase` of std
/// says: whether it has the Unicode property `Lowercase`.
pub uninterp spec fn unicode_lowercase(c: char) -> bool;

/// The upper case of one character, as `char::to_uppercase` of std gives it;
/// it may be more than one character.
pub uninterp spec fn char_uppercase_of(c: char) -> Seq<char>;

/// Whether `c` is ASCII punctuation.
pub open spec fn ascii_punctuation(c: char) -> bool {
    ('!' <= c <= '/') || (':' <= c <= '@') || ('[' <= c <= '`') || ('{' <= c <= '~')
}

/// Whether `c` is an ASCII digit.
pub open spec fn ascii_digit(c: char) -> bool {
    '0' <= c <= '9'
}

/// Whether `c` is whitespace, from `char::is_whitespace` of std.
#[verifier::external_body]
fn is_whitespace(c: char) -> (yes: bool)
    ensures
        yes == unicode_whitespace(c),
{
    c.is_whitespace()
}

/// Whether `c` is in upper case, from `char::is_uppercase` of std.
#[verifier::external_body]
fn is_uppercase(c: char) -> (yes: bool)
    ensures
        yes == unicode_uppercase(c),
{
    c.is_uppercase()
}

/// Whether `c` is in lower case, from `char::is_lowercase` of std.
#[verifier::external_body]
fn is_lowercase(c: char) -> (yes: bool)
    ensures
        yes == unicode_lowercase(c),
{
    c.is_lowercase()
}

/// The upper case of `c`, from `char::to_uppercase` of std.
#[verifier::external_body]
fn char_uppercase(c: char) -> (upper: String)
    ensures
        upper@ == char_uppercase_of(c),
{
    c.to_uppercase().collect()
}

/// The text that `chars` spell, from `String::from_iter` of std.
#[verifier::external_body]
fn text_from(chars: &Vec<char>) -> (text: String)
    ensures
        text@ == chars@,
{
    String::from_iter(chars.iter())
}

/// Whether `c` is ASCII punctuation.
fn is_ascii_punctuation(c: char) -> (yes: bool)
    ensures
        yes == ascii_punctuation(c),
{
    ('!' <= c && c <= '/') || (':' <= c && c <= '@') || ('[' <= c && c <= '`') || ('{' <= c && c
        <= '~')
}

/// Whether `c` is an ASCII digit.
fn is_ascii_digit(c: char) -> (yes: bool)
    ensures
        yes == ascii_digit(c),
{
    '0' <= c && c <= '9'
}

/// How far a text is split: the words that are complete, the word that is
/// being read, and the character read last.
pub struct Split {
    pub words: Seq<Seq<char>>,
    pub current: Seq<char>,
    pub previous: Option<char>,
}

/// The complete words with the word that is being read as the last, where
/// that word is not empty.
pub open spec fn closed(split: Split) -> Seq<Seq<char>> {
    if split.current.len() > 0 {
        split.words.push(split.current)
    } else {
        split.words
    }
}

/// Whether a word starts at the upper-case character `c`: after a
/// character in lower case or a digit.
pub open spec fn starts_word(split: Split) -> bool {
    split.previous matches Some(before) && (unicode_lowercase(before) || ascii_digit(before))
}

/// Whether a word started one before the lower-case character that is
/// read: that character follows one in upper case which has others before
/// it in its word, as the `R` in `HTTPRequest`.
pub open spec fn started_word(split: Split) -> bool {
    split.previous matches Some(before) && unicode_uppercase(before) && split.current.len() > 1
}

/// The split after one more character. Punctuation and whitespace end a
/// word and belong to none.
pub open spec fn split_step(split: Split, c: char) -> Split {
    if ascii_punctuation(c) || unicode_whitespace(c) {
        Split { words: closed(split), current: Seq::empty(), previous: Some(c) }
    } else if unicode_uppercase(c) && starts_word(split) {
        Split { words: closed(split), current: seq![c], previous: Some(c) }
    } else if !unicode_uppercase(c) && unicode_lowercase(c) && started_word(split) {
        Split {
            words: split.words.push(split.current.drop_last()),
            current: seq![split.current.last(), c],
            previous: Some(c),
        }
    } else {
        Split { words: split.words, current: split.current.push(c), previous: Some(c) }
    }
}

/// The split after all of `text`.
pub open spec fn split_of(text: Seq<char>) -> Split
    decreases text.len(),
{
    if text.len() == 0 {
        Split { words: Seq::empty(), current: Seq::empty(), previous: None }
    } else {
        split_step(split_of(text.drop_last()), text.last())
    }
}

/// The words of `text`.
pub open spec fn words_of(text: Seq<char>) -> Seq<Seq<char>> {
    closed(split_of(text))
}

/// What is done to a word.
pub enum WordChange {
    Lower,
    Upper,
    Capitalize,
}

/// `word` with its first character in upper case and the rest in lower
/// case.
pub open spec fn capitalized(word: Seq<char>) -> Seq<char> {
    if word.len() == 0 {
        Seq::empty()
    } else {
        char_uppercase_of(word[0]) + lowercase_of(word.drop_first())
    }
}

/// `word` after `change`.
pub open spec fn changed(change: WordChange, word: Seq<char>) -> Seq<char> {
    match change {
        WordChange::Lower => lowercase_of(word),
        WordChange::Upper => uppercase_of(word),
        WordChange::Capitalize => capitalized(word),
    }
}

/// The words after `first` for the first of them and `rest` for the others.
pub open spec fn styled(words: Seq<Seq<char>>, first: WordChange, rest: WordChange) -> Seq<Seq<char>> {
    Seq::new(
        words.len(),
        |i: int|
            if i == 0 {
                changed(first, words[i])
            } else {
                changed(rest, words[i])
            },
    )
}

impl TextCase {
    /// The name made of `words` in this way of writing.
    pub open spec fn joins(self, words: Seq<Seq<char>>) -> Seq<char> {
        match self {
            TextCase::Snake => joined(styled(words, WordChange::Lower, WordChange::Lower), "_"@),
            TextCase::Camel => joined(styled(words, WordChange::Lower, WordChange::Capitalize), ""@),
            TextCase::Pascal => joined(styled(words, WordChange::Capitalize, WordChange::Capitalize), ""@),
            TextCase::Kebab => joined(styled(words, WordChange::Lower, WordChange::Lower), "-"@),
            TextCase::ScreamingSnake => joined(styled(words, WordChange::Upper, WordChange::Upper), "_"@),
            _ => Seq::empty(),
        }
    }

    /// `text` in this way of writing.
    pub open spec fn converts(self, text: Seq<char>) -> Seq<char> {
        match self {
            TextCase::Lower => lowercase_of(text),
            TextCase::Upper => uppercase_of(text),
            _ => self.joins(words_of(text)),
        }
    }

    /// `s` in this way of writing.
    pub fn convert(&self, s: &str) -> (converted: String)
        ensures
            converted@ == self.converts(s@),
    {
        match self {
            TextCase::Lower => lowercase(s),
            TextCase::Upper => uppercase(s),
            _ => {
                let words = Self::split_into_words(s);
                self.process_words(words)
            },
        }
    }

    /// The words of `s`. A word ends before punctuation and whitespace,
    /// before a character in upper case that follows one in lower case or a
    /// digit, and before the last of several characters in upper case that a
    /// character in lower case follows.
    pub fn split_into_words(s: &str) -> (words: Vec<String>)
        ensures
            texts(words@) == words_of(s@),
    {
        let mut words: Vec<String> = Vec::new();
        let mut current: Vec<char> = Vec::new();
        let mut previous: Option<char> = None;
        let ghost mut split = split_of(Seq::empty());
        proof {
            assert(texts(words@) =~= split.words);
            assert(s@.take(0) =~= Seq::<char>::empty());
        }
        for c in iter: s.chars()
            invariant
                iter.seq() == s@,
                split == split_of(s@.take(iter.index() as int)),
                texts(words@) == split.words,
                current@ == split.current,
                previous == split.previous,
        {
            let ghost before = split;
            let ghost done = texts(words@);
            proof {
                let upto = s@.take(iter.index() + 1);
                assert(upto.drop_last() =~= s@.take(iter.index() as int));
                assert(upto.last() == c);
                split = split_step(before, c);
            }
            if is_ascii_punctuation(c) || is_whitespace(c) {
                if current.len() > 0 {
                    words.push(text_from(&current));
                    current = Vec::new();
                    proof {
                        assert(texts(words@) =~= done.push(before.current));
                    }
                }
            } else if is_uppercase(c) {
                let starts = match previous {
                    Some(before) => is_lowercase(before) || is_ascii_digit(before),
                    None => false,
                };
                if starts {
                    if current.len() > 0 {
                        words.push(text_from(&current));
                        current = Vec::new();
                        proof {
                            assert(texts(words@) =~= done.push(before.current));
                        }
                    }
                }
                current.push(c);
            } else if is_lowercase(c) {
                let started = match previous {
                    Some(before) => is_uppercase(before) && current.len() > 1,
                    None => false,
                };
                if started {
                    let last = match current.pop() {
                        Some(last) => last,
                        None => c,
                    };
                    words.push(text_from(&current));
                    current = Vec::new();
                    current.push(last);
                    proof {
                        assert(texts(words@) =~= done.push(before.current.drop_last()));
                    }
                }
                current.push(c);
            } else {
                current.push(c);
            }
            previous = Some(c);
            proof {
                assert(current@ =~= split.current);
            }
        }
        proof {
            assert(s@.take(s@.len() as int) =~= s@);
        }
        if current.len() > 0 {
            let ghost done = texts(words@);
            words.push(text_from(&current));
            proof {
                assert(texts(words@) =~= done.push(split.current));
            }
        }
        words
    }

    /// The name made of `words` in this way of writing.
    pub fn process_words(&self, words: Vec<String>) -> (name: String)
        ensures
            name@ == self.joins(texts(words@)),
    {
        match self {
            TextCase::Snake => join_styled(&words, WordChange::Lower, WordChange::Lower, "_"),
            TextCase::Camel => join_styled(&words, WordChange::Lower, WordChange::Capitalize, ""),
            TextCase::Pascal => join_styled(&words, WordChange::Capitalize, WordChange::Capitalize, ""),
            TextCase::Kebab => join_styled(&words, WordChange::Lower, WordChange::Lower, "-"),
            TextCase::ScreamingSnake => join_styled(&words, WordChange::Upper, WordChange::Upper, "_"),
            _ => String::new(),
        }
    }

    /// `s` with its first character in upper case and the rest in lower
    /// case.
    pub fn capitalize(s: &str) -> (word: String)
        ensures
            word@ == capitalized(s@),
    {
        let len = s.unicode_len();
        if len == 0 {
            return String::new();
        }
        let mut word = char_uppercase(s.get_char(0));
        let rest = lowercase(s.substring_char(1, len));
        proof {
            assert(s@.subrange(1, len as int) =~= s@.drop_first());
        }
        word.append(rest.as_str());
        word
    }
}

/// `word` after `change`.
fn change_word(change: &WordChange, word: &str) -> (result: String)
    ensures
        result@ == changed(*change, word@),
{
    match change {
        WordChange::Lower => lowercase(word),
        WordChange::Upper => uppercase(word),
        WordChange::Capitalize => TextCase::capitalize(word),
    }
}

/// The words after `first` for the first of them and `rest` for the others,
/// with `separator` between each two.
fn join_styled(words: &Vec<String>, first: WordChange, rest: WordChange, separator: &str) -> (name: String)
    ensures
        name@ == joined(styled(texts(words@), first, rest), separator@),
{
    let ghost parts = styled(texts(words@), first, rest);
    let mut name = String::new();
    let mut index: usize = 0;
    proof {
        assert(parts.take(0) =~= Seq::<Seq<char>>::empty());
    }
    while index < words.len()
        invariant
            index <= words@.len(),
            parts == styled(texts(words@), first, rest),
            name@ == joined(parts.take(index as int), separator@),
        decreases words@.len() - index,
    {
        let piece = if index == 0 {
            change_word(&first, words[index].as_str())
        } else {
            change_word(&rest, words[index].as_str())
        };
        proof {
            assert(parts.take(index + 1).drop_last() =~= parts.take(index as int));
            assert(parts.take(index + 1).last() == piece@);
            if index == 0 {
                assert(Seq::<char>::empty() + piece@ =~= piece@);
            }
        }
        if index > 0 {
            name.append(separator);
        }
        name.append(piece.as_str());
        index = index + 1;
    }
    proof {
        assert(parts.take(index as int) =~= parts);
    }
    name
}

/// Whether the two texts are the same.
fn same_text(left: &str, right: &str) -> (same: bool)
    ensures
        same == (left@ == right@),
{
    let first = left.as_bytes();
    let second = right.as_bytes();
    proof {
        encode_utf8_decode_utf8(left@);
        encode_utf8_decode_utf8(right@);
    }
    if first.len() != second.len() {
        return false;
    }
    let mut index: usize = 0;
    while index < first.len()
        invariant
            index <= first@.len(),
            first@.len() == second@.len(),
            first@ == encode_utf8(left@),
            second@ == encode_utf8(right@),
            forall|i: int| 0 <= i < index ==> first@[i] == second@[i],
        decreases first@.len() - index,
    {
        if first[index] != second[index] {
            return false;
        }
        index = index + 1;
    }
    assert(first@ =~= second@);
    true
}

/// Whether `name` is `stem`, alone or with `case` behind it, joined or set
/// off by `_`, `-` or a space.
pub open spec fn spells(name: Seq<char>, stem: Seq<char>) -> bool {
    name == stem || name == stem + "case"@ || name == stem + "_case"@ || name == stem + "-case"@
        || name == stem + " case"@
}

/// Whether `name` is `stem`, alone or with `case` behind it.
fn is_spelling(name: &str, stem: &str) -> (yes: bool)
    ensures
        yes == spells(name@, stem@),
{
    if same_text(name, stem) {
        return true;
    }
    let joint = String::from_str(stem).concat("case");
    let snake = String::from_str(stem).concat("_case");
    let kebab = String::from_str(stem).concat("-case");
    let spaced = String::from_str(stem).concat(" case");
    same_text(name, joint.as_str()) || same_text(name, snake.as_str()) || same_text(
        name,
        kebab.as_str(),
    ) || same_text(name, spaced.as_str())
}

/// The way of writing that goes by `name`, whatever the case of the
/// letters of `name`.
pub open spec fn named(name: Seq<char>) -> Option<TextCase> {
    let lower = lowercase_of(name);
    if spells(lower, "lower"@) {
        Some(TextCase::Lower)
    } else if spells(lower, "upper"@) {
        Some(TextCase::Upper)
    } else if spells(lower, "sentence"@) {
        Some(TextCase::Sentence)
    } else if spells(lower, "snake"@) {
        Some(TextCase::Snake)
    } else if spells(lower, "camel"@) {
        Some(TextCase::Camel)
    } else if spells(lower, "pascal"@) {
        Some(TextCase::Pascal)
    } else if spells(lower, "kebab"@) {
        Some(TextCase::Kebab)
    } else if lower == "screamingsnake"@ || lower == "screaming_snake"@ || lower
        == "screaming-snake"@ || lower == "screaming snake"@ {
        Some(TextCase::ScreamingSnake)
    } else {
        None
    }
}

impl TextCase {
    /// The way of writing that goes by the name `s`, or an error that holds
    /// the name.
    pub fn from_str(s: &str) -> (result: Result<TextCase, String>)
        ensures
            match named(s@) {
                Some(case) => result == Ok::<TextCase, String>(case),
                None => result matches Err(message) && message@ == "Invalid text case: "@ + s@,
            },
    {
        let lower = lowercase(s);
        let name = lower.as_str();
        if is_spelling(name, "lower") {
            Ok(TextCase::Lower)
        } else if is_spelling(name, "upper") {
            Ok(TextCase::Upper)
        } else if is_spelling(name, "sentence") {
            Ok(TextCase::Sentence)
        } else if is_spelling(name, "snake") {
            Ok(TextCase::Snake)
        } else if is_spelling(name, "camel") {
            Ok(TextCase::Camel)
        } else if is_spelling(name, "pascal") {
            Ok(TextCase::Pascal)
        } else if is_spelling(name, "kebab") {
            Ok(TextCase::Kebab)
        } else if same_text(name, "screamingsnake") || same_text(name, "screaming_snake")
            || same_text(name, "screaming-snake") || same_text(name, "screaming snake") {
            Ok(TextCase::ScreamingSnake)
        } else {
            Err(String::from_str("Invalid text case: ").concat(s))
        }
    }

    /// The way of writing that goes by the name `s`.
    pub fn from(s: &str) -> (case: TextCase)
        requires
            named(s@) is Some,
        ensures
            named(s@) == Some(case),
    {
        match TextCase::from_str(s) {
            Ok(case) => case,
            Err(_) => TextCase::Lower,
        }
    }
}

impl std::str::FromStr for TextCase {
    type Err = String;

    fn from_str(s: &str) -> (result: Result<Self, Self::Err>)
        ensures
            match named(s@) {
                Some(case) => result == Ok::<TextCase, String>(case),
                None => result matches Err(message) && message@ == "Invalid text case: "@ + s@,
            },
    {
        TextCase::from_str(s)
    }
}

} // verus!

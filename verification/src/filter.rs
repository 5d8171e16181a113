use regex::RegexSet;
use vstd::prelude::*;

verus! {

#[verifier::external_type_specification]
#[verifier::external_body]
pub struct ExRegexSet(regex::RegexSet);

#[verifier::external_type_specification]
#[verifier::external_body]
pub struct ExRegexError(regex::Error);

/// The patterns a `RegexSet` was built from, in the order given.
pub uninterp spec fn regex_set_patterns(set: RegexSet) -> Seq<Seq<char>>;

/// Whether `RegexSet::new` accepts these patterns.
pub uninterp spec fn regex_set_builds(patterns: Seq<Seq<char>>) -> bool;

/// Whether some pattern of a set built from `patterns` matches somewhere in
/// `haystack`.
pub uninterp spec fn regex_set_matches(patterns: Seq<Seq<char>>, haystack: Seq<char>) -> bool;

/// `RegexSet::new`: a set of the given patterns, or the error for the first
/// that does not compile. Whether it succeeds is named, not stated: that is
/// the regex grammar and the size limits.
#[verifier::external_body]
fn regex_set_new(patterns: &Vec<String>) -> (r: Result<RegexSet, regex::Error>)
    ensures
        r is Ok <==> regex_set_builds(patterns.deep_view()),
        r matches Ok(set) ==> regex_set_patterns(set) == patterns.deep_view(),
{
    RegexSet::new(patterns)
}

/// `RegexSet::empty`: a set of no patterns.
#[verifier::external_body]
fn regex_set_empty() -> (r: RegexSet)
    ensures
        regex_set_patterns(r) == Seq::<Seq<char>>::empty(),
{
    RegexSet::empty()
}

/// A character that a regex pattern reads as itself: an ASCII letter or digit,
/// or a space.
pub open spec fn plain_char(c: char) -> bool {
    ('a' <= c && c <= 'z') || ('A' <= c && c <= 'Z') || ('0' <= c && c <= '9') || c == ' '
}

/// A pattern of plain characters only, optionally anchored at the start of
/// the text by `^`.
pub open spec fn simple_pattern(p: Seq<char>) -> bool {
    let body = if p.len() > 0 && p[0] == '^' { p.drop_first() } else { p };
    forall|i: int| 0 <= i < body.len() ==> plain_char(#[trigger] body[i])
}

/// `needle` occurs in `haystack`, with the same case.
pub open spec fn occurs_in(needle: Seq<char>, haystack: Seq<char>) -> bool {
    exists|i: int|
        0 <= i && i + needle.len() <= haystack.len() && #[trigger] haystack.subrange(
            i,
            i + needle.len(),
        ) == needle
}

/// How a simple pattern matches under the default options (case-sensitive,
/// `^` only at the start of the text): an anchored one where the text starts
/// with it, another wherever it occurs.
pub open spec fn simple_match(p: Seq<char>, haystack: Seq<char>) -> bool {
    if p.len() > 0 && p[0] == '^' {
        p.len() - 1 <= haystack.len() && haystack.take(p.len() - 1) == p.drop_first()
    } else {
        occurs_in(p, haystack)
    }
}

/// Among simple patterns, some pattern matches `haystack` by `simple_match`.
pub open spec fn some_simple_match(patterns: Seq<Seq<char>>, haystack: Seq<char>) -> bool {
    exists|i: int| 0 <= i < patterns.len() && simple_match(#[trigger] patterns[i], haystack)
}

/// Every pattern is simple.
pub open spec fn all_simple(patterns: Seq<Seq<char>>) -> bool {
    forall|i: int| 0 <= i < patterns.len() ==> simple_pattern(#[trigger] patterns[i])
}

/// `RegexSet::is_match`: whether any pattern of the set matches somewhere in
/// the haystack (named). A set of no patterns never matches. Matching is a
/// function of the patterns alone because every set here is built with the
/// default options, by `regex_set_new` or `regex_set_empty`. Under those
/// options (regex-1.13.1 docs: literals match themselves, matching is
/// case-sensitive, `^` matches only at the start of the haystack), a set of
/// simple patterns matches exactly where one of them matches literally.
#[verifier::external_body]
fn regex_set_is_match(set: &RegexSet, haystack: &str) -> (r: bool)
    ensures
        r == regex_set_matches(regex_set_patterns(*set), haystack@),
        regex_set_patterns(*set).len() == 0 ==> !r,
        all_simple(regex_set_patterns(*set)) ==> (r <==> some_simple_match(
            regex_set_patterns(*set),
            haystack@,
        )),
{
    set.is_match(haystack)
}

/// The message of a regex error, as its `Display` writes it. Nothing is
/// stated of the text.
#[verifier::external_body]
fn regex_error_message(error: regex::Error) -> String {
    error.to_string()
}

/// Why the configured filter patterns could not be used.
pub enum FilterError {
    InvalidPattern(String),
}

/// The set of patterns whose matches hide a lyric line.
pub struct WordFilter {
    set: RegexSet,
}

impl WordFilter {
    /// The patterns of the filter.
    pub closed spec fn patterns(&self) -> Seq<Seq<char>> {
        regex_set_patterns(self.set)
    }

    /// A filter that hides nothing.
    pub fn empty() -> (r: WordFilter)
        ensures
            r.patterns() == Seq::<Seq<char>>::empty(),
    {
        WordFilter { set: regex_set_empty() }
    }

    /// A filter of the given patterns, or the error of the first invalid one.
    pub fn new(patterns: &Vec<String>) -> (r: Result<WordFilter, FilterError>)
        ensures
            r is Ok <==> regex_set_builds(patterns.deep_view()),
            r matches Ok(f) ==> f.patterns() == patterns.deep_view(),
    {
        match regex_set_new(patterns) {
            Ok(set) => Ok(WordFilter { set }),
            Err(e) => Err(FilterError::InvalidPattern(regex_error_message(e))),
        }
    }

    /// Whether some pattern matches somewhere in `text`.
    pub fn has_filtered_word(&self, text: &str) -> (r: bool)
        ensures
            r == regex_set_matches(self.patterns(), text@),
            self.patterns().len() == 0 ==> !r,
            all_simple(self.patterns()) ==> (r <==> some_simple_match(self.patterns(), text@)),
    {
        regex_set_is_match(&self.set, text)
    }
}

/// Filtering is on when the configuration asks for it and names a pattern.
pub fn filter_enabled(enable_filter_regex: bool, patterns: &Vec<String>) -> (r: bool)
    ensures
        r == (enable_filter_regex && patterns@.len() > 0),
{
    enable_filter_regex && patterns.len() > 0
}

/// Whether a lyric label shows `text`: never when it is empty, and, when
/// filtered words are hidden, not when a filter pattern matches it.
pub open spec fn label_shown(text: Seq<char>, hide_filtered_words: bool, patterns: Seq<Seq<char>>) -> bool {
    text.len() > 0 && !(hide_filtered_words && regex_set_matches(patterns, text))
}

/// The visibility that a lyric label takes when its text changes.
pub fn label_visible(text: &str, hide_filtered_words: bool, filter: &WordFilter) -> (r: bool)
    ensures
        r == label_shown(text@, hide_filtered_words, filter.patterns()),
        hide_filtered_words && all_simple(filter.patterns()) ==> (r <==> text@.len() > 0
            && !some_simple_match(filter.patterns(), text@)),
{
    if hide_filtered_words {
        !filter.has_filtered_word(text) && !text.is_empty()
    } else {
        !text.is_empty()
    }
}

/// An empty label is never shown, and with no filter patterns only emptiness
/// hides a label.
pub proof fn empty_label_hidden(text: Seq<char>, hide_filtered_words: bool, patterns: Seq<Seq<char>>)
    ensures
        text.len() == 0 ==> !label_shown(text, hide_filtered_words, patterns),
        !hide_filtered_words ==> (label_shown(text, hide_filtered_words, patterns) <==> text.len() > 0),
{
}

} // verus!

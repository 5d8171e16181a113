use std::time::Duration;
use vstd::prelude::*;

verus! {

/// One line of a timed lyric.
#[derive(Debug)]
pub struct LyricLineOwned {
    pub text: String,
    pub start_time: Duration,
}

/// A lyric as the providers hand it over.
#[derive(Debug)]
pub enum LyricOwned {
    LineTimestamp(Vec<LyricLineOwned>),
    PlainText(String),
    NoLyric,
}

/// The characters with the Unicode `White_Space` property.
pub open spec fn is_white_space(c: char) -> bool {
    let u = c as u32;
    ||| 0x09 <= u <= 0x0D
    ||| u == 0x20
    ||| u == 0x85
    ||| u == 0xA0
    ||| u == 0x1680
    ||| 0x2000 <= u <= 0x200A
    ||| u == 0x2028
    ||| u == 0x2029
    ||| u == 0x202F
    ||| u == 0x205F
    ||| u == 0x3000
}

/// A text is blank when trimming whitespace leaves nothing of it.
pub open spec fn is_blank(text: Seq<char>) -> bool {
    forall|i: int| 0 <= i < text.len() ==> is_white_space(#[trigger] text[i])
}

/// Whether `c` has the Unicode `White_Space` property, as
/// `char::is_whitespace` decides.
pub fn is_white_space_char(c: char) -> (r: bool)
    ensures
        r == is_white_space(c),
{
    let u = c as u32;
    (0x09 <= u && u <= 0x0D) || u == 0x20 || u == 0x85 || u == 0xA0 || u == 0x1680 || (0x2000
        <= u && u <= 0x200A) || u == 0x2028 || u == 0x2029 || u == 0x202F || u == 0x205F || u
        == 0x3000
}

/// Whether `text.trim()` is empty.
pub fn is_blank_text(text: &str) -> (r: bool)
    ensures
        r == is_blank(text@),
{
    for c in it: text.chars()
        invariant
            it.seq() == text@,
            forall|j: int| 0 <= j < it.index() ==> is_white_space(#[trigger] text@[j]),
    {
        if !is_white_space_char(c) {
            return false;
        }
    }
    true
}


/// A lyric is displayable when it is timed and at least one of its lines
/// holds something besides whitespace.
pub open spec fn displayable(lyric: LyricOwned) -> bool {
    match lyric {
        LyricOwned::LineTimestamp(lines) => some_line_shown(lines@),
        _ => false,
    }
}

/// Some line of `lines` is not blank.
pub open spec fn some_line_shown(lines: Seq<LyricLineOwned>) -> bool {
    exists|i: int| 0 <= i < lines.len() && !is_blank(#[trigger] lines[i].text@)
}

/// Whether `lyric` has a timed line that is not blank.
pub fn has_displayable_lyric(lyric: &LyricOwned) -> (r: bool)
    ensures
        r == displayable(*lyric),
{
    match lyric {
        LyricOwned::LineTimestamp(lines) => {
            let mut i: usize = 0;
            while i < lines.len()
                invariant
                    *lyric == LyricOwned::LineTimestamp(*lines),
                    i <= lines@.len(),
                    forall|j: int| 0 <= j < i ==> is_blank(#[trigger] lines@[j].text@),
                decreases lines@.len() - i,
            {
                if !is_blank_text(lines[i].text.as_str()) {
                    assert(!is_blank(lines@[i as int].text@));
                    return true;
                }
                i += 1;
            }
            false
        },
        _ => false,
    }
}

/// What a lyric cache file holds: the original lyric, its translation and
/// the user's offset in milliseconds.
pub struct LyricCache {
    pub olyric: LyricOwned,
    pub tlyric: LyricOwned,
    pub offset: i64,
}

/// A cache file is worth loading when either of its lyrics is displayable.
pub open spec fn cache_usable(cache: LyricCache) -> bool {
    displayable(cache.olyric) || displayable(cache.tlyric)
}

/// Whether a cache read back from disk may be shown in place of fetching.
pub fn is_cache_usable(cache: &LyricCache) -> (r: bool)
    ensures
        r == cache_usable(*cache),
{
    has_displayable_lyric(&cache.olyric) || has_displayable_lyric(&cache.tlyric)
}

/// The entry that `update_lyric_cache` writes for the current lyrics: none
/// when neither lyric has a displayable line, else both lyrics with offset 0.
pub fn cache_entry(origin: LyricOwned, translation: LyricOwned) -> (r: Option<LyricCache>)
    ensures
        r is None <==> !displayable(origin) && !displayable(translation),
        r matches Some(c) ==> c.olyric == origin && c.tlyric == translation && c.offset == 0,
{
    if !has_displayable_lyric(&origin) && !has_displayable_lyric(&translation) {
        return None;
    }
    Some(LyricCache { olyric: origin, tlyric: translation, offset: 0 })
}

} // verus!

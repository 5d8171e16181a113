use crate::text::{hex_byte, hex_lower, hex_lower_concat, hex_lower_len, push_hex_byte, to_hex_lower};
use std::time::Duration;
use vstd::utf8::encode_utf8;
use vstd::prelude::*;

verus! {

/// The length of a track as `Duration` holds it: whole seconds and the
/// nanoseconds of the second under way.
#[derive(Clone, Copy)]
pub struct TrackLength {
    pub secs: u64,
    pub nanos: u32,
}

/// What the player reports of the track that plays.
pub struct TrackMeta {
    pub unique_id: Option<String>,
    pub title: Option<String>,
    pub album: Option<String>,
    pub artists: Option<Vec<String>>,
    pub length: Option<TrackLength>,
}

impl TrackMeta {
    /// The length, when known, is a valid `Duration`.
    pub open spec fn wf(&self) -> bool {
        self.length matches Some(l) ==> l.nanos < 1_000_000_000
    }
}

/// The text that `format!("{:?}", artists)` produces.
pub uninterp spec fn artists_debug_text(artists: Option<Seq<Seq<char>>>) -> Seq<char>;

/// `Debug` of the artists (`format!("{:?}", ..)`). The text is named, not
/// stated: `Debug` escapes the strings.
#[verifier::external_body]
fn debug_artists(artists: &Option<Vec<String>>) -> (r: String)
    ensures
        r@ == artists_debug_text(artists.deep_view()),
{
    format!("{artists:?}")
}

/// The text that `format!("{:?}", album)` produces.
pub uninterp spec fn album_debug_text(album: Option<Seq<char>>) -> Seq<char>;

/// `Debug` of the album (`format!("{:?}", ..)`). The text is named, not
/// stated: `Debug` escapes the string.
#[verifier::external_body]
fn debug_album(album: &Option<String>) -> (r: String)
    ensures
        r@ == album_debug_text(album.deep_view()),
{
    format!("{album:?}")
}

/// The text that `format!("{:?}", length)` produces, the length taken as the
/// `Duration` of those seconds and nanoseconds.
pub uninterp spec fn length_debug_text(length: Option<TrackLength>) -> Seq<char>;

/// `Debug` of the length as an `Option<Duration>` (`Duration::new` of the
/// seconds and nanoseconds, then `format!("{:?}", ..)`). The text is named,
/// not stated: `Debug` prints a duration in a unit chosen by its size.
#[verifier::external_body]
fn debug_length(length: Option<TrackLength>) -> (r: String)
    requires
        length matches Some(l) ==> l.nanos < 1_000_000_000,
    ensures
        r@ == length_debug_text(length),
{
    let length = match length {
        Some(l) => Some(Duration::new(l.secs, l.nanos)),
        None => None,
    };
    format!("{length:?}")
}

/// The cache key of a track with a title: the title, then the `Debug` texts
/// of its artists, album and length, separated by `-`.
pub open spec fn cache_key_text(meta: TrackMeta) -> Seq<char> {
    meta.title->0@ + "-"@ + artists_debug_text(meta.artists.deep_view()) + "-"@
        + album_debug_text(meta.album.deep_view()) + "-"@ + length_debug_text(meta.length)
}

/// The cache key of a track with a title.
pub fn cache_key(track_meta: &TrackMeta) -> (key: String)
    requires
        track_meta.wf(),
        track_meta.title is Some,
    ensures
        key@ == cache_key_text(*track_meta),
{
    let title = match &track_meta.title {
        Some(title) => title,
        None => {
            assert(false);
            return String::new();
        },
    };
    let mut key = title.as_str().to_owned();
    key.append("-");
    let artists = debug_artists(&track_meta.artists);
    key.append(artists.as_str());
    key.append("-");
    let album = debug_album(&track_meta.album);
    key.append(album.as_str());
    key.append("-");
    let length = debug_length(track_meta.length);
    key.append(length.as_str());
    key
}

/// The MD5 digest of a byte string.
pub uninterp spec fn md5_digest(data: Seq<u8>) -> Seq<u8>;

/// A text of exactly one 64-byte MD5 block, a test vector of the md5 crate.
pub const MD5_ONE_BLOCK: &'static str = "0123456789012345678901234567890123456789012345678901234567890123";
/// A text of 80 bytes, longer than one MD5 block (RFC 1321's last test
/// vector, also in the md5 crate's tests).
pub const MD5_TWO_BLOCKS: &'static str = "12345678901234567890123456789012345678901234567890123456789012345678901234567890";

/// `md5::compute` on the UTF-8 bytes of `text`: its sixteen digest bytes,
/// named by `md5_digest`. The digest is of the whole text; the md5 crate's
/// own test vectors (md5-0.8.1/src/lib.rs, `fn compute` test) pin it on the
/// empty text, on `abc`, on a text of one full block and on one of 80 bytes.
#[verifier::external_body]
fn md5_compute(text: &str) -> (digest: [u8; 16])
    ensures
        digest@ == md5_digest(encode_utf8(text@)),
        text@ == ""@ ==> digest@ == seq![0xd4u8, 0x1d, 0x8c, 0xd9, 0x8f, 0x00, 0xb2, 0x04, 0xe9, 0x80, 0x09, 0x98, 0xec, 0xf8, 0x42, 0x7e],
        text@ == "abc"@ ==> digest@ == seq![0x90u8, 0x01, 0x50, 0x98, 0x3c, 0xd2, 0x4f, 0xb0, 0xd6, 0x96, 0x3f, 0x7d, 0x28, 0xe1, 0x7f, 0x72],
        text@ == MD5_ONE_BLOCK@ ==> digest@ == seq![0x7fu8, 0x7b, 0xfd, 0x34, 0x87, 0x09, 0xde, 0xea, 0xac, 0xe1, 0x9e, 0x3f, 0x53, 0x5f, 0x8c, 0x54],
        text@ == MD5_TWO_BLOCKS@ ==> digest@ == seq![0x57u8, 0xed, 0xf4, 0xa2, 0x2b, 0xe3, 0xc9, 0x55, 0xac, 0x49, 0xda, 0x2e, 0x21, 0x07, 0xb6, 0x7a],
{
    md5::compute(text).0
}

/// Where a lyric cache lies below the cache home: three directory names,
/// then the file name.
pub struct CachePath {
    pub dirs: Vec<String>,
    pub file_name: String,
}

/// The digest that names the cache file of a track with a title.
pub open spec fn track_digest(meta: TrackMeta) -> Seq<u8> {
    md5_digest(encode_utf8(cache_key_text(meta)))
}

/// The directory names of a digest: its first three bytes in hex.
pub open spec fn digest_dirs(digest: Seq<u8>) -> Seq<Seq<char>> {
    seq![hex_byte(digest[0]), hex_byte(digest[1]), hex_byte(digest[2])]
}

/// The file name of a digest: all of it in hex, then `.json`.
pub open spec fn digest_file_name(digest: Seq<u8>) -> Seq<char> {
    hex_lower(digest) + ".json"@
}

/// The three cache directories of a digest, each byte as `{:02x}`.
pub fn md5_cache_dir(digest: &[u8; 16]) -> (dirs: Vec<String>)
    ensures
        dirs.deep_view() == digest_dirs(digest@),
{
    let mut dirs: Vec<String> = Vec::new();
    let mut i: usize = 0;
    while i < 3
        invariant
            i <= 3,
            digest@.len() == 16,
            dirs@.len() == i,
            forall|j: int| 0 <= j < i ==> #[trigger] dirs@[j]@ == hex_byte(digest@[j]),
        decreases 3 - i,
    {
        let mut name = String::new();
        push_hex_byte(&mut name, digest[i]);
        assert(name@ =~= hex_byte(digest@[i as int]));
        dirs.push(name);
        i += 1;
    }
    assert(dirs.deep_view() =~= digest_dirs(digest@));
    dirs
}

/// Where the lyric of a track is cached, below the cache home.
///
/// A track without a title has no cache path: no lyric is cached for an
/// unknown song. This does not create the directories.
pub fn get_cache_path(track_meta: &TrackMeta) -> (r: Option<CachePath>)
    requires
        track_meta.wf(),
    ensures
        r is None <==> track_meta.title is None,
        r matches Some(p) ==> {
            &&& track_digest(*track_meta).len() == 16
            &&& p.dirs.deep_view() == digest_dirs(track_digest(*track_meta))
            &&& p.file_name@ == digest_file_name(track_digest(*track_meta))
            &&& p.file_name@.len() == 37
            &&& p.dirs@[0]@ + p.dirs@[1]@ + p.dirs@[2]@ == p.file_name@.take(6)
        },
{
    match &track_meta.title {
        Some(title) => {
            let key = cache_key(track_meta);
            let digest = md5_compute(key.as_str());
            let dirs = md5_cache_dir(&digest);
            let mut file_name = to_hex_lower(&digest);
            file_name.append(".json");
            proof {
                cache_dirs_prefix_file_name(digest@);
                hex_lower_len(digest@);
                reveal_strlit(".json");
                assert(file_name@.len() == 37);
                assert(file_name@.take(6) =~= digest_file_name(digest@).take(6));
                assert(dirs.deep_view().len() == 3);
                assert(dirs@.len() == 3);
                assert(dirs.deep_view()[0] == dirs@[0]@);
                assert(dirs.deep_view()[1] == dirs@[1]@);
                assert(dirs.deep_view()[2] == dirs@[2]@);
            }
            Some(CachePath { dirs, file_name })
        },
        None => None,
    }
}

/// The cache directories spell the first six characters of the cache file
/// name: the file lies in the directories of its own digest.
pub proof fn cache_dirs_prefix_file_name(digest: Seq<u8>)
    requires
        digest.len() == 16,
    ensures
        digest_dirs(digest)[0] + digest_dirs(digest)[1] + digest_dirs(digest)[2]
            == digest_file_name(digest).take(6),
{
    let head = digest.take(3);
    let tail = digest.skip(3);
    assert(head + tail =~= digest);
    hex_lower_concat(head, tail);
    hex_lower_len(head);
    assert(head.drop_last().drop_last() =~= seq![digest[0]]);
    assert(head.drop_last() =~= seq![digest[0], digest[1]]);
    reveal_with_fuel(hex_lower, 4);
    assert(hex_lower(head) =~= hex_byte(digest[0]) + hex_byte(digest[1]) + hex_byte(digest[2]));
    assert(digest_file_name(digest).take(6) =~= hex_lower(head));
}

/// The cache path of a track depends only on its title, artists, album and
/// length: two tracks that agree on those share their cache file.
pub proof fn cache_path_ignores_unique_id(a: TrackMeta, b: TrackMeta)
    requires
        a.title is Some,
        a.title->0@ == b.title->0@,
        a.artists.deep_view() == b.artists.deep_view(),
        a.album.deep_view() == b.album.deep_view(),
        a.length == b.length,
    ensures
        track_digest(a) == track_digest(b),
{
}

} // verus!

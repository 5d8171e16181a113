use crate::lyric::{cache_usable, displayable, is_cache_usable, LyricCache, LyricOwned};
use vstd::prelude::*;

verus! {

/// Where `fetch_lyric_cached` stands between two pieces of outside work.
pub enum CacheFlowState {
    Begin,
    ReadingCache,
    Fetching { cacheable: bool },
    WritingCache,
    Finished,
}

/// What the outside work reported.
pub enum CacheFlowEvent {
    /// The run starts; `has_cache_path` is false when the track has no title.
    Start { has_cache_path: bool, ignore_cache: bool },
    /// The cache file was read and parsed (`None`: missing, unreadable or
    /// not a cache file).
    CacheRead(Option<LyricCache>),
    /// The providers were asked for the lyric.
    FetchDone { ok: bool },
    /// The current lyric was written to the cache file (or was not).
    CacheWritten { ok: bool },
}

/// What the caller does next.
pub enum CacheFlowAction {
    /// Read and parse the cache file.
    ReadCache,
    /// Ask the lyric providers.
    Fetch,
    /// Show the cached lyric with its offset, announce the loaded cache, and stop.
    UseCache(LyricCache),
    /// Write the current lyric to the cache file.
    WriteCache,
    /// Announce the newly written cache file, then return the fetch result.
    AnnounceNewCache,
    /// Return the fetch result.
    Finish,
}

/// One step of the cached lyric fetch.
pub open spec fn flow_next(state: CacheFlowState, event: CacheFlowEvent) -> (CacheFlowState, CacheFlowAction) {
    match (state, event) {
        (CacheFlowState::Begin, CacheFlowEvent::Start { has_cache_path, ignore_cache }) => {
            if !has_cache_path {
                (CacheFlowState::Fetching { cacheable: false }, CacheFlowAction::Fetch)
            } else if ignore_cache {
                (CacheFlowState::Fetching { cacheable: true }, CacheFlowAction::Fetch)
            } else {
                (CacheFlowState::ReadingCache, CacheFlowAction::ReadCache)
            }
        },
        (CacheFlowState::ReadingCache, CacheFlowEvent::CacheRead(read)) => {
            match read {
                Some(cache) => if cache_usable(cache) {
                    (CacheFlowState::Finished, CacheFlowAction::UseCache(cache))
                } else {
                    (CacheFlowState::Fetching { cacheable: true }, CacheFlowAction::Fetch)
                },
                None => (CacheFlowState::Fetching { cacheable: true }, CacheFlowAction::Fetch),
            }
        },
        (CacheFlowState::Fetching { cacheable }, CacheFlowEvent::FetchDone { ok }) => {
            if cacheable && ok {
                (CacheFlowState::WritingCache, CacheFlowAction::WriteCache)
            } else {
                (CacheFlowState::Finished, CacheFlowAction::Finish)
            }
        },
        (CacheFlowState::WritingCache, CacheFlowEvent::CacheWritten { ok }) => {
            if ok {
                (CacheFlowState::Finished, CacheFlowAction::AnnounceNewCache)
            } else {
                (CacheFlowState::Finished, CacheFlowAction::Finish)
            }
        },
        _ => (CacheFlowState::Finished, CacheFlowAction::Finish),
    }
}

/// The decisions of `fetch_lyric_cached`: given where the run stands and
/// what the last piece of outside work reported, the next state and action.
pub fn cache_flow_step(state: CacheFlowState, event: CacheFlowEvent) -> (r: (CacheFlowState, CacheFlowAction))
    ensures
        r == flow_next(state, event),
{
    match (state, event) {
        (CacheFlowState::Begin, CacheFlowEvent::Start { has_cache_path, ignore_cache }) => {
            if !has_cache_path {
                (CacheFlowState::Fetching { cacheable: false }, CacheFlowAction::Fetch)
            } else if ignore_cache {
                (CacheFlowState::Fetching { cacheable: true }, CacheFlowAction::Fetch)
            } else {
                (CacheFlowState::ReadingCache, CacheFlowAction::ReadCache)
            }
        },
        (CacheFlowState::ReadingCache, CacheFlowEvent::CacheRead(read)) => {
            match read {
                Some(cache) => if is_cache_usable(&cache) {
                    (CacheFlowState::Finished, CacheFlowAction::UseCache(cache))
                } else {
                    (CacheFlowState::Fetching { cacheable: true }, CacheFlowAction::Fetch)
                },
                None => (CacheFlowState::Fetching { cacheable: true }, CacheFlowAction::Fetch),
            }
        },
        (CacheFlowState::Fetching { cacheable }, CacheFlowEvent::FetchDone { ok }) => {
            if cacheable && ok {
                (CacheFlowState::WritingCache, CacheFlowAction::WriteCache)
            } else {
                (CacheFlowState::Finished, CacheFlowAction::Finish)
            }
        },
        (CacheFlowState::WritingCache, CacheFlowEvent::CacheWritten { ok }) => {
            if ok {
                (CacheFlowState::Finished, CacheFlowAction::AnnounceNewCache)
            } else {
                (CacheFlowState::Finished, CacheFlowAction::Finish)
            }
        },
        _ => (CacheFlowState::Finished, CacheFlowAction::Finish),
    }
}

/// A cache file in which neither lyric has a displayable line is never
/// shown: the providers are asked again.
pub proof fn empty_cache_is_refetched(cache: LyricCache)
    requires
        !cache_usable(cache),
    ensures
        flow_next(CacheFlowState::ReadingCache, CacheFlowEvent::CacheRead(Some(cache)))
            == (CacheFlowState::Fetching { cacheable: true }, CacheFlowAction::Fetch),
{
}

/// What `cache_entry` writes for lyrics with a displayable line is shown,
/// unchanged, when it is read back.
pub proof fn written_cache_is_used(origin: LyricOwned, translation: LyricOwned)
    requires
        displayable(origin) || displayable(translation),
    ensures
        ({
            let cache = LyricCache { olyric: origin, tlyric: translation, offset: 0 };
            flow_next(CacheFlowState::ReadingCache, CacheFlowEvent::CacheRead(Some(cache)))
                == (CacheFlowState::Finished, CacheFlowAction::UseCache(cache))
        }),
{
}

/// A track without a title is fetched but its lyric is never written to
/// the cache.
pub proof fn untitled_track_is_never_cached(ignore_cache: bool, event: CacheFlowEvent)
    ensures
        flow_next(
            CacheFlowState::Begin,
            CacheFlowEvent::Start { has_cache_path: false, ignore_cache },
        ) == (CacheFlowState::Fetching { cacheable: false }, CacheFlowAction::Fetch),
        flow_next(CacheFlowState::Fetching { cacheable: false }, event).1 != CacheFlowAction::WriteCache,
{
}

/// With `ignore_cache` the cache file is not read: the providers are asked.
pub proof fn ignored_cache_is_not_read()
    ensures
        flow_next(
            CacheFlowState::Begin,
            CacheFlowEvent::Start { has_cache_path: true, ignore_cache: true },
        ) == (CacheFlowState::Fetching { cacheable: true }, CacheFlowAction::Fetch),
{
}

/// Only a successful fetch is written to the cache, and a new cache file is
/// announced only after it was written.
pub proof fn only_successful_work_is_cached(state: CacheFlowState, event: CacheFlowEvent)
    ensures
        flow_next(state, event).1 == CacheFlowAction::WriteCache ==> state == (
        CacheFlowState::Fetching { cacheable: true }) && event == (CacheFlowEvent::FetchDone {
            ok: true,
        }),
        flow_next(state, event).1 == CacheFlowAction::AnnounceNewCache ==> state
            == CacheFlowState::WritingCache && event == (CacheFlowEvent::CacheWritten { ok: true }),
{
}

/// A cache read back with a displayable lyric is handed over exactly as it
/// was read, whatever its offset: origin, translation and offset unchanged.
pub proof fn usable_cache_is_used(cache: LyricCache)
    requires
        displayable(cache.olyric) || displayable(cache.tlyric),
    ensures
        flow_next(CacheFlowState::ReadingCache, CacheFlowEvent::CacheRead(Some(cache)))
            == (CacheFlowState::Finished, CacheFlowAction::UseCache(cache)),
{
}

/// A cache is shown only right after it was read, and it is the cache that
/// was read.
pub proof fn used_cache_is_the_one_read(state: CacheFlowState, event: CacheFlowEvent, cache: LyricCache)
    ensures
        flow_next(state, event).1 == CacheFlowAction::UseCache(cache) ==> state
            == CacheFlowState::ReadingCache && event == CacheFlowEvent::CacheRead(Some(cache)),
{
}

/// After a fetch the run ends, unless the fetched lyric is to be written to
/// the cache: a fetch is never repeated.
pub proof fn fetch_done_ends_or_writes(cacheable: bool, ok: bool)
    ensures
        flow_next(CacheFlowState::Fetching { cacheable }, CacheFlowEvent::FetchDone { ok }) == (
        if cacheable && ok {
            (CacheFlowState::WritingCache, CacheFlowAction::WriteCache)
        } else {
            (CacheFlowState::Finished, CacheFlowAction::Finish)
        }),
{
}

/// The providers are asked only when a run starts or after its cache was
/// read: at most once per run.
pub proof fn fetch_only_after_start_or_read(state: CacheFlowState, event: CacheFlowEvent)
    ensures
        flow_next(state, event).1 == CacheFlowAction::Fetch ==> (state == CacheFlowState::Begin
            && event is Start) || (state == CacheFlowState::ReadingCache && event is CacheRead),
{
}

/// Every step leaves the states that come before it: a run passes through at
/// most the five states in order, so it ends after at most four steps.
pub open spec fn flow_rank(state: CacheFlowState) -> nat {
    match state {
        CacheFlowState::Begin => 4,
        CacheFlowState::ReadingCache => 3,
        CacheFlowState::Fetching { .. } => 2,
        CacheFlowState::WritingCache => 1,
        CacheFlowState::Finished => 0,
    }
}

/// Each step from an unfinished state moves to a later one.
pub proof fn every_step_progresses(state: CacheFlowState, event: CacheFlowEvent)
    ensures
        state != CacheFlowState::Finished ==> flow_rank(flow_next(state, event).0) < flow_rank(state),
{
}

} // verus!

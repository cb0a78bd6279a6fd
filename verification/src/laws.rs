//! What holds of every query and of every invalidation, whatever the disk,
//! the clock and the network do.

use crate::catalog::decoded_catalog;
use crate::fetcher::response_catalog;
use crate::protocol::{accepts, answers, fails, Action, Event, Phase, Query, Removal};
use crate::steam_games::{
    invalidated, is_fresh, temporary_file_of, AppIdCacheError, AppIdCacheInterface,
    FRESHNESS_WINDOW_NANOS,
};
use vstd::prelude::*;

verus! {

/// How many more events a query can accept at most.
pub open spec fn steps_left(query: Query) -> nat {
    let refresh: nat = if query.retried {
        0
    } else {
        4
    };
    match query.phase {
        Phase::Probing => 5 + refresh,
        Phase::PreparingDirectory => 4 + refresh,
        Phase::Fetching => 3 + refresh,
        Phase::Storing => 2 + refresh,
        Phase::Loading => 1 + refresh,
        Phase::Finished => 0,
    }
}

/// Every query comes to an end: each step leaves fewer steps to go, there
/// are never more than nine to go, and a query that has finished accepts
/// nothing more.
pub proof fn lemma_query_ends(
    cache: AppIdCacheInterface,
    before: Query,
    event: Event,
    after: Query,
    action: Action,
)
    requires
        cache.steps(before, event, after, action),
    ensures
        accepts(before, event),
        before.phase != Phase::Finished,
        steps_left(after) < steps_left(before),
        steps_left(before) <= 9,
        action is Finish <==> after.phase == Phase::Finished,
{
}

/// Invalidating succeeds whenever the file system does not refuse, whether
/// the file was there or not. So invalidating twice in a row succeeds twice.
pub proof fn lemma_invalidate_twice(first: Removal, second: Removal)
    requires
        first != Removal::Failed,
        second != Removal::Failed,
    ensures
        invalidated(first) is Ok,
        invalidated(second) is Ok,
{
}

/// A cache file stays fresh from the instant it was written until the whole
/// freshness window has passed: a query that probes it in that time loads it
/// and begins no refresh.
pub proof fn lemma_fresh_file_is_loaded(
    cache: AppIdCacheInterface,
    before: Query,
    written: u128,
    now: u128,
    after: Query,
    action: Action,
)
    requires
        before.phase == Phase::Probing,
        written <= now < written + FRESHNESS_WINDOW_NANOS,
        cache.steps(before, Event::Probed { modified: Some(written), now }, after, action),
    ensures
        is_fresh(Some(written), now),
        cache.loads(before, after, action),
{
}

/// A cache file that is missing, or was modified a whole freshness window
/// ago or longer, is stale: a query that probes it begins a refresh.
pub proof fn lemma_stale_file_is_refreshed(
    cache: AppIdCacheInterface,
    before: Query,
    modified: Option<u128>,
    now: u128,
    after: Query,
    action: Action,
)
    requires
        before.phase == Phase::Probing,
        modified matches Some(at) ==> at + FRESHNESS_WINDOW_NANOS <= now,
        cache.steps(before, Event::Probed { modified, now }, after, action),
    ensures
        !is_fresh(modified, now),
        cache.refreshes(before, before.retried, after, action),
{
}

/// A query for an application that the cache file does not know ends with no
/// title, and with no error.
pub proof fn lemma_unknown_appid_is_no_error(
    cache: AppIdCacheInterface,
    before: Query,
    text: String,
    after: Query,
    action: Action,
)
    requires
        before.phase == Phase::Loading,
        decoded_catalog(text@) matches Some(catalog) && !catalog.contains_key(before.appid),
        cache.steps(before, Event::Loaded { text }, after, action),
    ensures
        action == Action::Finish(Ok(None)),
        after.phase == Phase::Finished,
{
}

/// A cache file that cannot be decoded is refreshed once. The query fails
/// only where the file that the refresh wrote cannot be decoded either.
pub proof fn lemma_undecodable_file_is_refreshed_once(
    cache: AppIdCacheInterface,
    before: Query,
    text: String,
    after: Query,
    action: Action,
)
    requires
        before.phase == Phase::Loading,
        decoded_catalog(text@) is None,
        cache.steps(before, Event::Loaded { text }, after, action),
    ensures
        !before.retried ==> cache.refreshes(before, true, after, action),
        before.retried ==> fails(before, AppIdCacheError::SerdeJsonError, after, action),
{
}

/// A query answers with nothing but what the cache file holds: it ends with
/// a title, or with none, only on the text of the cache file, and only where
/// that text decodes to a catalog that holds the title for the application
/// asked for, or does not know the application.
pub proof fn lemma_answers_come_from_the_cache_file(
    cache: AppIdCacheInterface,
    before: Query,
    event: Event,
    after: Query,
    action: Action,
)
    requires
        cache.steps(before, event, after, action),
        action matches Action::Finish(Ok(_)),
    ensures
        event matches Event::Loaded { text } && decoded_catalog(text@) matches Some(catalog)
            && answers(before, catalog, after, action),
{
}

/// The catalog that an event brings from the endpoint: `None` for an answer
/// that gives no catalog, and for every event that is no answer.
pub open spec fn fetched_catalog(event: Event) -> Option<Map<u64, Seq<char>>> {
    match event {
        Event::Fetched { status, body } => response_catalog(status, body@),
        _ => None,
    }
}

/// Whether an event brings text of the cache file that cannot be decoded.
pub open spec fn undecodable(event: Event) -> bool {
    match event {
        Event::Loaded { text } => decoded_catalog(text@) is None,
        _ => false,
    }
}

/// Every error has its cause. A query ends with an input or output error
/// only when the file system has refused an action; with a fetch error only
/// when no answer came or the answer gives no catalog; and with a format
/// error only when the cache file cannot be decoded after the query has
/// refreshed it for that reason, or when the fetched catalog could not be
/// written as text.
pub proof fn lemma_errors_have_causes(
    cache: AppIdCacheInterface,
    before: Query,
    event: Event,
    after: Query,
    action: Action,
)
    requires
        cache.steps(before, event, after, action),
        action matches Action::Finish(Err(_)),
    ensures
        action matches Action::Finish(Err(error)) && match error {
            AppIdCacheError::IoError => event is IoFailed,
            AppIdCacheError::ReqwestError => (event is FetchFailed || event is Fetched)
                && fetched_catalog(event) is None,
            AppIdCacheError::SerdeJsonError => (before.retried && undecodable(event)) || (
            fetched_catalog(event) is Some),
        },
{
}

/// A query writes nothing but whole catalogs, and never into the cache file
/// directly: it asks for a file to be stored only after an answer has been
/// fetched, the text reads as the whole catalog of that answer, and it is
/// written to the temporary file, which is not the cache file, before it
/// takes the place of the cache file.
pub proof fn lemma_only_whole_catalogs_are_stored(
    cache: AppIdCacheInterface,
    before: Query,
    event: Event,
    after: Query,
    action: Action,
)
    requires
        cache.steps(before, event, after, action),
        action is Store,
    ensures
        event matches Event::Fetched { status, body } && response_catalog(status, body@)
            is Some,
        action matches Action::Store { path, temporary, text } && ({
            &&& event matches Event::Fetched { status, body }
            &&& decoded_catalog(text@) == response_catalog(status, body@)
            &&& path@ == cache.path()
            &&& temporary@ == temporary_file_of(path@)
            &&& temporary@ != path@
        }),
{
    lemma_temporary_file_differs(cache.path());
}

/// The file in which a new cache file is written is never the cache file
/// itself.
pub proof fn lemma_temporary_file_differs(path: Seq<char>)
    ensures
        temporary_file_of(path) != path,
{
    reveal_strlit(".tmp");
    assert(temporary_file_of(path).len() == path.len() + 4);
}

} // verus!

//! What the cache asks of its caller, and what the caller answers.
//!
//! The cache performs no input or output of its own. A query hands out one
//! [`Action`] at a time; the caller carries it out and reports the outcome as
//! an [`Event`], until the action is [`Action::Finish`].

use crate::steam_games::AppIdCacheError;
use vstd::prelude::*;

verus! {

/// What a query is waiting for.
#[derive(Clone, Copy, Debug, PartialEq, Eq, Structural)]
pub enum Phase {
    /// For the time of the cache file's last modification and the time of
    /// day.
    Probing,
    /// For the directory of the cache file to exist. A refresh begins here.
    PreparingDirectory,
    /// For the answer of the application-list endpoint.
    Fetching,
    /// For the new cache file to be in place.
    Storing,
    /// For the text of the cache file.
    Loading,
    /// For nothing: the query has given its result.
    Finished,
}

/// A query for the title of one application, part of the way through.
#[derive(Clone, Copy, Debug, PartialEq, Eq, Structural)]
pub struct Query {
    /// The application asked for.
    pub appid: u64,
    pub phase: Phase,
    /// Whether this query has already found a cache file that it could not
    /// decode, and has refreshed it for that reason.
    pub retried: bool,
}

/// What the caller is to do next.
#[derive(Debug, PartialEq, Eq)]
pub enum Action {
    /// Find out when the file at `path` was last modified, if it exists, and
    /// what time it is. Answered by [`Event::Probed`].
    Probe { path: String },
    /// Create the directory `path` and its parents where they are missing.
    /// Answered by [`Event::DirectoryReady`] or [`Event::IoFailed`].
    CreateDirectory { path: String },
    /// Send a GET request to `url`. Answered by [`Event::Fetched`] or
    /// [`Event::FetchFailed`].
    Fetch { url: String },
    /// Write `text` to the file `temporary`, then rename that file to `path`,
    /// so that a reader of `path` sees the old text or the new, never a part.
    /// Answered by [`Event::Stored`] or [`Event::IoFailed`].
    Store { path: String, temporary: String, text: String },
    /// Read the file at `path` as text. Answered by [`Event::Loaded`] or
    /// [`Event::IoFailed`].
    Load { path: String },
    /// Nothing more: this is the result of the query.
    Finish(Result<Option<String>, AppIdCacheError>),
}

/// What came of an action.
#[derive(Debug, PartialEq, Eq)]
pub enum Event {
    /// The time of the file's last modification, `None` where there is no
    /// file, and the time of day; both in nanoseconds since the Unix epoch.
    Probed { modified: Option<u128>, now: u128 },
    /// The directory exists.
    DirectoryReady,
    /// The endpoint has answered with this HTTP status and body.
    Fetched { status: u16, body: Vec<u8> },
    /// No answer came from the endpoint.
    FetchFailed,
    /// The new cache file is in place.
    Stored,
    /// The text of the cache file.
    Loaded { text: String },
    /// The file system refused the action.
    IoFailed,
}

/// What came of removing the cache file.
#[derive(Clone, Copy, Debug, PartialEq, Eq, Structural)]
pub enum Removal {
    /// The file was there and is gone.
    Removed,
    /// There was no file.
    Missing,
    /// The file system refused.
    Failed,
}

/// Whether `event` answers what a query in the state `before` is waiting for.
pub open spec fn accepts(before: Query, event: Event) -> bool {
    match (before.phase, event) {
        (Phase::Probing, Event::Probed { .. }) => true,
        (Phase::PreparingDirectory, Event::DirectoryReady) => true,
        (Phase::PreparingDirectory, Event::IoFailed) => true,
        (Phase::Fetching, Event::Fetched { .. }) => true,
        (Phase::Fetching, Event::FetchFailed) => true,
        (Phase::Storing, Event::Stored) => true,
        (Phase::Storing, Event::IoFailed) => true,
        (Phase::Loading, Event::Loaded { .. }) => true,
        (Phase::Loading, Event::IoFailed) => true,
        _ => false,
    }
}

/// The query ends with `error`.
pub open spec fn fails(
    before: Query,
    error: AppIdCacheError,
    after: Query,
    action: Action,
) -> bool {
    &&& after == Query { phase: Phase::Finished, ..before }
    &&& action == Action::Finish(Err(error))
}

/// The query ends with what `catalog` holds for the application asked for:
/// its title, or `None` where the catalog does not know it.
pub open spec fn answers(
    before: Query,
    catalog: Map<u64, Seq<char>>,
    after: Query,
    action: Action,
) -> bool {
    &&& after == Query { phase: Phase::Finished, ..before }
    &&& action matches Action::Finish(Ok(title))
    &&& match title {
        Some(found) => catalog.contains_key(before.appid) && found@ == catalog[before.appid],
        None => !catalog.contains_key(before.appid),
    }
}

} // verus!

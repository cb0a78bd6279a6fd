//! The cache manager: where the cache file lives, when it counts as fresh,
//! and what a query does next.

use crate::catalog::{decoded_catalog, Catalog};
use crate::fetcher::{catalog_from_response, response_catalog};
use crate::protocol::{accepts, answers, fails, Action, Event, Phase, Query, Removal};
use vstd::prelude::*;

verus! {

/// Why a cache operation gave up.
#[derive(Clone, Copy, Debug, PartialEq, Eq, Structural)]
pub enum AppIdCacheError {
    /// Reading, writing or removing the cache file, or creating its
    /// directory, failed.
    IoError,
    /// The catalog could not be fetched: the request failed, the answer was
    /// no success, or its body is no application list.
    ReqwestError,
    /// The cache file could not be decoded even after it had been rewritten,
    /// or the catalog could not be written as text that reads as the catalog
    /// again.
    SerdeJsonError,
}

/// How long a cache file stays fresh after it was last modified: thirty
/// minutes, in nanoseconds.
pub const FRESHNESS_WINDOW_NANOS: u128 = 1_800_000_000_000;

/// Whether a cache file counts as fresh at the instant `now`.
///
/// `modified` is the time of the file's last modification, or `None` where
/// there is no file. Both instants are nanoseconds since the Unix epoch. A
/// file is fresh while less than the whole window has passed since it was
/// modified; one that was modified exactly a window ago is stale, and so is a
/// missing one.
pub open spec fn is_fresh(modified: Option<u128>, now: u128) -> bool {
    match modified {
        Some(at) => now < at + FRESHNESS_WINDOW_NANOS,
        None => false,
    }
}

/// What invalidating the cache comes to, given what came of removing the
/// cache file. That there was no file to remove is a success: the cache is as
/// invalid as it can be.
pub open spec fn invalidated(removal: Removal) -> Result<(), AppIdCacheError> {
    match removal {
        Removal::Removed => Ok(()),
        Removal::Missing => Ok(()),
        Removal::Failed => Err(AppIdCacheError::IoError),
    }
}

/// The address of Steam's application list.
pub const CATALOG_URL: &'static str = "https://api.steampowered.com/ISteamApps/GetAppList/v2/";

/// The characters of a string that may be missing.
pub open spec fn characters_of(text: Option<String>) -> Option<Seq<char>> {
    match text {
        Some(text) => Some(text@),
        None => None,
    }
}

/// The directory of the cache file: `gamels` below the user's cache
/// directory, and `/tmp/gamels` where the user has none.
pub open spec fn cache_dir_of(user_cache_dir: Option<Seq<char>>) -> Seq<char> {
    match user_cache_dir {
        Some(base) => base + "/gamels"@,
        None => "/tmp/gamels"@,
    }
}

/// The cache file in the directory `dir`.
pub open spec fn cache_file_of(dir: Seq<char>) -> Seq<char> {
    dir + "/appid_cache.json"@
}

/// The file beside the cache file `path` in which a new cache file is
/// written before it takes the place of the old one.
pub open spec fn temporary_file_of(path: Seq<char>) -> Seq<char> {
    path + ".tmp"@
}

/// The cache manager. It knows where the cache file lives and nothing else:
/// every query reads the file anew.
#[derive(Debug)]
pub struct AppIdCacheInterface {
    cache_file_dir: String,
    cache_file_path: String,
}

impl AppIdCacheInterface {
    #[verifier::type_invariant]
    spec fn well_formed(&self) -> bool {
        self.cache_file_path@ == cache_file_of(self.cache_file_dir@)
    }

    /// The directory of the cache file.
    pub closed spec fn dir(&self) -> Seq<char> {
        self.cache_file_dir@
    }

    /// The path of the cache file.
    pub open spec fn path(&self) -> Seq<char> {
        cache_file_of(self.dir())
    }

    /// The path under which a new cache file is written.
    pub open spec fn temporary_path(&self) -> Seq<char> {
        temporary_file_of(self.path())
    }

    /// The cache manager for the user's cache directory, as the platform
    /// gives it at this moment. Nothing on disk is touched.
    pub fn new() -> (cache: Self)
        ensures
            cache.dir() == cache_dir_of(None) || exists|base: Seq<char>|
                cache.dir() == cache_dir_of(Some(base)),
    {
        let found = user_cache_dir();
        let ghost base = characters_of(found);
        let cache = Self::from_cache_dir(found);
        assert(cache.dir() == cache_dir_of(base));
        cache
    }

    /// The cache manager for a given user cache directory, or for none.
    pub fn from_cache_dir(user_cache_dir: Option<String>) -> (cache: Self)
        ensures
            cache.dir() == cache_dir_of(characters_of(user_cache_dir)),
    {
        let cache_file_dir = match user_cache_dir {
            Some(base) => base.concat("/gamels"),
            None => "/tmp/gamels".to_owned(),
        };
        let cache_file_path = cache_file_dir.clone().concat("/appid_cache.json");
        AppIdCacheInterface { cache_file_dir, cache_file_path }
    }

    /// The directory of the cache file.
    pub fn cache_file_dir(&self) -> (dir: &str)
        ensures
            dir@ == self.dir(),
    {
        self.cache_file_dir.as_str()
    }

    /// The path of the cache file.
    pub fn cache_file_path(&self) -> (path: &str)
        ensures
            path@ == self.path(),
    {
        proof {
            use_type_invariant(self);
        }
        self.cache_file_path.as_str()
    }

    /// Whether a cache file that was last modified at `modified` is fresh at
    /// `now`; see [`is_fresh`].
    pub fn is_valid(&self, modified: Option<u128>, now: u128) -> (fresh: bool)
        ensures
            fresh == is_fresh(modified, now),
    {
        match modified {
            Some(at) => now < FRESHNESS_WINDOW_NANOS || now - FRESHNESS_WINDOW_NANOS < at,
            None => false,
        }
    }

    /// The result of invalidating the cache, from what came of removing the
    /// file at [`Self::cache_file_path`]; see [`invalidated`].
    pub fn invalidate(&self, removal: Removal) -> (result: Result<(), AppIdCacheError>)
        ensures
            result == invalidated(removal),
    {
        match removal {
            Removal::Removed => Ok(()),
            Removal::Missing => Ok(()),
            Removal::Failed => Err(AppIdCacheError::IoError),
        }
    }

    /// The query reads the cache file next.
    pub open spec fn loads(&self, before: Query, after: Query, action: Action) -> bool {
        &&& after == Query { phase: Phase::Loading, ..before }
        &&& action matches Action::Load { path }
        &&& path@ == self.path()
    }

    /// The query begins a refresh: it has the directory of the cache file
    /// made next.
    pub open spec fn refreshes(
        &self,
        before: Query,
        retried: bool,
        after: Query,
        action: Action,
    ) -> bool {
        &&& after == Query { phase: Phase::PreparingDirectory, retried, ..before }
        &&& action matches Action::CreateDirectory { path }
        &&& path@ == self.dir()
    }

    /// The query has `text` written, first beside the cache file and then in
    /// its place.
    pub open spec fn stores_text(
        &self,
        before: Query,
        text: Seq<char>,
        after: Query,
        action: Action,
    ) -> bool {
        &&& after == Query { phase: Phase::Storing, ..before }
        &&& action matches Action::Store { path, temporary, text: stored }
        &&& path@ == self.path()
        &&& temporary@ == self.temporary_path()
        &&& stored@ == text
    }

    /// The query has a text stored that reads as `catalog`.
    pub open spec fn stores(
        &self,
        before: Query,
        catalog: Map<u64, Seq<char>>,
        after: Query,
        action: Action,
    ) -> bool {
        &&& action matches Action::Store { text, .. }
        &&& self.stores_text(before, text@, after, action)
        &&& decoded_catalog(text@) == Some(catalog)
    }

    /// What a query does on an event that it accepts: the state `after` in
    /// which it goes on, and the `action` it asks for.
    ///
    /// A query probes the cache file first. A fresh file is loaded; a stale
    /// or missing one is refreshed: the directory is made, the catalog
    /// fetched, the new file stored, and then loaded. Text that decodes
    /// answers the query. Text that does not is refreshed once more, and is
    /// an error the second time. A failure of the file system or of the fetch
    /// ends the query at once.
    pub open spec fn steps(
        &self,
        before: Query,
        event: Event,
        after: Query,
        action: Action,
    ) -> bool {
        match (before.phase, event) {
            (Phase::Probing, Event::Probed { modified, now }) => if is_fresh(modified, now) {
                self.loads(before, after, action)
            } else {
                self.refreshes(before, before.retried, after, action)
            },
            (Phase::PreparingDirectory, Event::DirectoryReady) => {
                &&& after == Query { phase: Phase::Fetching, ..before }
                &&& action matches Action::Fetch { url }
                &&& url@ == CATALOG_URL@
            },
            (Phase::PreparingDirectory, Event::IoFailed) => fails(
                before,
                AppIdCacheError::IoError,
                after,
                action,
            ),
            (Phase::Fetching, Event::Fetched { status, body }) => match response_catalog(
                status,
                body@,
            ) {
                Some(catalog) => self.stores(before, catalog, after, action) || fails(
                    before,
                    AppIdCacheError::SerdeJsonError,
                    after,
                    action,
                ),
                None => fails(before, AppIdCacheError::ReqwestError, after, action),
            },
            (Phase::Fetching, Event::FetchFailed) => fails(
                before,
                AppIdCacheError::ReqwestError,
                after,
                action,
            ),
            (Phase::Storing, Event::Stored) => self.loads(before, after, action),
            (Phase::Storing, Event::IoFailed) => fails(
                before,
                AppIdCacheError::IoError,
                after,
                action,
            ),
            (Phase::Loading, Event::Loaded { text }) => match decoded_catalog(text@) {
                Some(catalog) => answers(before, catalog, after, action),
                None => if before.retried {
                    fails(before, AppIdCacheError::SerdeJsonError, after, action)
                } else {
                    self.refreshes(before, true, after, action)
                },
            },
            (Phase::Loading, Event::IoFailed) => fails(
                before,
                AppIdCacheError::IoError,
                after,
                action,
            ),
            _ => false,
        }
    }

    /// Begins a query for the title of `appid`.
    pub fn query(&self, appid: u64) -> (begun: (Query, Action))
        ensures
            begun.0 == (Query { appid, phase: Phase::Probing, retried: false }),
            begun.1 matches Action::Probe { path } && path@ == self.path(),
    {
        let query = Query { appid, phase: Phase::Probing, retried: false };
        (query, Action::Probe { path: self.cache_file_path().to_owned() })
    }

    /// Takes a query one step on: `event` is what came of the action that the
    /// query asked for last.
    ///
    /// The result is `None`, and the query unchanged, exactly where the event
    /// does not answer that action.
    pub fn advance(&self, query: &mut Query, event: Event) -> (action: Option<Action>)
        ensures
            match action {
                Some(next) => accepts(*old(query), event) && self.steps(
                    *old(query),
                    event,
                    *final(query),
                    next,
                ),
                None => !accepts(*old(query), event) && *final(query) == *old(query),
            },
    {
        match (query.phase, event) {
            (Phase::Probing, Event::Probed { modified, now }) => {
                if self.is_valid(modified, now) {
                    Some(self.load(query))
                } else {
                    let retried = query.retried;
                    Some(self.refresh(query, retried))
                }
            },
            (Phase::PreparingDirectory, Event::DirectoryReady) => {
                query.phase = Phase::Fetching;
                Some(Action::Fetch { url: CATALOG_URL.to_owned() })
            },
            (Phase::PreparingDirectory, Event::IoFailed) => Some(
                fail(query, AppIdCacheError::IoError),
            ),
            (Phase::Fetching, Event::Fetched { status, body }) => {
                match catalog_from_response(status, body.as_slice()) {
                    Ok(catalog) => Some(self.store(query, catalog.to_json())),
                    Err(error) => Some(fail(query, error)),
                }
            },
            (Phase::Fetching, Event::FetchFailed) => Some(
                fail(query, AppIdCacheError::ReqwestError),
            ),
            (Phase::Storing, Event::Stored) => Some(self.load(query)),
            (Phase::Storing, Event::IoFailed) => Some(fail(query, AppIdCacheError::IoError)),
            (Phase::Loading, Event::Loaded { text }) => {
                match Catalog::from_json(text.as_str()) {
                    Some(catalog) => Some(answer(query, &catalog)),
                    None => {
                        if query.retried {
                            Some(fail(query, AppIdCacheError::SerdeJsonError))
                        } else {
                            Some(self.refresh(query, true))
                        }
                    },
                }
            },
            (Phase::Loading, Event::IoFailed) => Some(fail(query, AppIdCacheError::IoError)),
            _ => None,
        }
    }

    /// Goes on to load the cache file.
    fn load(&self, query: &mut Query) -> (action: Action)
        ensures
            self.loads(*old(query), *final(query), action),
    {
        query.phase = Phase::Loading;
        Action::Load { path: self.cache_file_path().to_owned() }
    }

    /// Begins a refresh of the cache file. `retried` says whether the refresh
    /// is the one that a query grants a file it could not decode.
    fn refresh(&self, query: &mut Query, retried: bool) -> (action: Action)
        ensures
            self.refreshes(*old(query), retried, *final(query), action),
    {
        query.phase = Phase::PreparingDirectory;
        query.retried = retried;
        Action::CreateDirectory { path: self.cache_file_dir().to_owned() }
    }

    /// Goes on after the catalog has been encoded: has the text stored, or
    /// ends the query where there is none because the encoding has failed.
    pub fn store(&self, query: &mut Query, encoded: Option<String>) -> (action: Action)
        ensures
            match encoded {
                Some(text) => self.stores_text(*old(query), text@, *final(query), action),
                None => fails(*old(query), AppIdCacheError::SerdeJsonError, *final(query), action),
            },
    {
        match encoded {
            Some(text) => {
                query.phase = Phase::Storing;
                let path = self.cache_file_path().to_owned();
                let temporary = path.clone().concat(".tmp");
                Action::Store { path, temporary, text }
            },
            None => fail(query, AppIdCacheError::SerdeJsonError),
        }
    }
}

/// Ends a query with an error.
fn fail(query: &mut Query, error: AppIdCacheError) -> (action: Action)
    ensures
        fails(*old(query), error, *final(query), action),
{
    query.phase = Phase::Finished;
    Action::Finish(Err(error))
}

/// Ends a query with what `catalog` holds for the application asked for.
fn answer(query: &mut Query, catalog: &Catalog) -> (action: Action)
    ensures
        answers(*old(query), catalog@, *final(query), action),
{
    query.phase = Phase::Finished;
    Action::Finish(Ok(catalog.get(query.appid)))
}

/// Asks `directories::BaseDirs::new` for the user's directories and hands out
/// the cache directory among them, as `cache_dir` gives it. The result is
/// `None` where the platform names no home directory, and where the cache
/// directory's path is not valid Unicode.
///
/// The answer depends on the environment of the process, so nothing is
/// promised about it.
#[verifier::external_body]
fn user_cache_dir() -> Option<String> {
    match directories::BaseDirs::new() {
        Some(dirs) => dirs.cache_dir().to_str().map(String::from),
        None => None,
    }
}

} // verus!

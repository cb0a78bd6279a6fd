//! The catalog fetcher, from the answer of the application-list endpoint to
//! the catalog. Sending the request is the caller's part.
//!
//! The endpoint answers with a JSON document of the shape
//! `{"applist":{"apps":[{"appid":440,"name":"Team Fortress 2"}, ...]}}`.

use crate::catalog::Catalog;
use crate::json::{json_document, Json};
use crate::steam_games::AppIdCacheError;
use vstd::prelude::*;

verus! {

/// The application list of a document: the items of the array at
/// `applist.apps`. `None` where a step of that path is missing or `apps` is
/// no array.
pub open spec fn app_list(document: Json) -> Option<Seq<Json>> {
    match document.member("applist"@) {
        Some(list) => match list.member("apps"@) {
            Some(apps) => apps.items(),
            None => None,
        },
        None => None,
    }
}

/// The id and the title that one item of the application list gives: its
/// `appid`, an unsigned number, and its `name`, a string. `None` where either
/// is missing or of another type.
pub open spec fn app_entry(app: Json) -> Option<(u64, Seq<char>)> {
    match (app.member("appid"@), app.member("name"@)) {
        (Some(appid), Some(name)) => match (appid.unsigned(), name.text()) {
            (Some(id), Some(title)) => Some((id, title)),
            _ => None,
        },
        _ => None,
    }
}

/// The id that an item of the application list gives.
pub open spec fn app_id(app: Json) -> Option<u64> {
    match app_entry(app) {
        Some((id, _)) => Some(id),
        None => None,
    }
}

/// The title that an item of the application list gives.
pub open spec fn app_title(app: Json) -> Option<Seq<char>> {
    match app_entry(app) {
        Some((_, title)) => Some(title),
        None => None,
    }
}

/// The catalog that a list of items gives. Every item must give an entry;
/// where an id comes twice, the later title stands.
pub open spec fn catalog_of_apps(apps: Seq<Json>) -> Option<Map<u64, Seq<char>>>
    decreases apps.len(),
{
    if apps.len() == 0 {
        Some(Map::empty())
    } else {
        match (catalog_of_apps(apps.drop_last()), app_entry(apps.last())) {
            (Some(catalog), Some((id, title))) => Some(catalog.insert(id, title)),
            _ => None,
        }
    }
}

/// The catalog that a document gives, and `None` where it holds no
/// application list or an item of the list gives no entry.
pub open spec fn catalog_of_document(document: Json) -> Option<Map<u64, Seq<char>>> {
    match app_list(document) {
        Some(apps) => catalog_of_apps(apps),
        None => None,
    }
}

/// Whether an HTTP status says that the request succeeded.
pub open spec fn is_success(status: u16) -> bool {
    200 <= status < 300
}

/// The catalog that an answer of the endpoint gives, and `None` where the
/// fetch has failed: the status is no success, the body is no JSON document,
/// or the document gives no catalog.
pub open spec fn response_catalog(status: u16, body: Seq<u8>) -> Option<Map<u64, Seq<char>>> {
    if is_success(status) {
        match json_document(body) {
            Some(document) => catalog_of_document(document),
            None => None,
        }
    } else {
        None
    }
}

/// A list gives no catalog once one of its prefixes gives none.
proof fn lemma_prefix_without_catalog(apps: Seq<Json>, n: int)
    requires
        0 <= n <= apps.len(),
        catalog_of_apps(apps.take(n)) is None,
    ensures
        catalog_of_apps(apps) is None,
    decreases apps.len() - n,
{
    if n == apps.len() {
        assert(apps.take(n) == apps);
    } else {
        assert(apps.take(n + 1).drop_last() == apps.take(n));
        lemma_prefix_without_catalog(apps, n + 1);
    }
}

/// Where a list gives a catalog, every item gives an entry, the catalog knows
/// exactly the ids that the items give, and each id has the title of the last
/// item that gives it.
pub proof fn lemma_catalog_of_apps(apps: Seq<Json>)
    requires
        catalog_of_apps(apps) is Some,
    ensures
        forall|i: int| 0 <= i < apps.len() ==> (#[trigger] app_entry(apps[i])) is Some,
        forall|id: u64| #[trigger]
            catalog_of_apps(apps).unwrap().contains_key(id) <==> exists|i: int|
                0 <= i < apps.len() && #[trigger] app_id(apps[i]) == Some(id),
        forall|i: int|
            #![trigger app_id(apps[i])]
            0 <= i < apps.len() && (forall|j: int|
                i < j < apps.len() ==> #[trigger] app_id(apps[j]) != app_id(apps[i]))
                ==> catalog_of_apps(apps).unwrap()[app_id(apps[i]).unwrap()] == app_title(
                apps[i],
            ).unwrap(),
    decreases apps.len(),
{
    if apps.len() > 0 {
        let front = apps.drop_last();
        let catalog = catalog_of_apps(apps).unwrap();
        lemma_catalog_of_apps(front);
        assert forall|i: int| 0 <= i < apps.len() implies (#[trigger] app_entry(
            apps[i],
        )) is Some by {
            if i < front.len() {
                assert(front[i] == apps[i]);
            }
        }
        assert forall|id: u64| #[trigger]
            catalog.contains_key(id) <==> exists|i: int|
                0 <= i < apps.len() && #[trigger] app_id(apps[i]) == Some(id) by {
            if catalog.contains_key(id) {
                if app_id(apps[apps.len() - 1]) != Some(id) {
                    assert(catalog_of_apps(front).unwrap().contains_key(id));
                    let i = choose|i: int|
                        0 <= i < front.len() && #[trigger] app_id(front[i]) == Some(id);
                    assert(front[i] == apps[i]);
                    assert(app_id(apps[i]) == Some(id));
                }
            }
            if exists|i: int| 0 <= i < apps.len() && #[trigger] app_id(apps[i]) == Some(id) {
                let i = choose|i: int|
                    0 <= i < apps.len() && #[trigger] app_id(apps[i]) == Some(id);
                if i < front.len() {
                    assert(front[i] == apps[i]);
                    assert(app_id(front[i]) == Some(id));
                }
            }
        }
        assert forall|i: int|
            #![trigger app_id(apps[i])]
            0 <= i < apps.len() && (forall|j: int|
                i < j < apps.len() ==> #[trigger] app_id(apps[j]) != app_id(
                    apps[i],
                )) implies catalog[app_id(apps[i]).unwrap()] == app_title(apps[i]).unwrap() by {
            if i < front.len() {
                assert(front[i] == apps[i]);
                assert(app_id(apps[apps.len() - 1]) != app_id(apps[i]));
                assert forall|j: int| i < j < front.len() implies #[trigger] app_id(front[j])
                    != app_id(front[i]) by {
                    assert(front[j] == apps[j]);
                    assert(app_id(apps[j]) != app_id(apps[i]));
                }
            }
        }
    }
}

/// Reads the id and the title off one item of the application list.
pub fn read_app_entry(app: &Json) -> (entry: Option<(u64, String)>)
    ensures
        match entry {
            Some((id, title)) => app_entry(*app) == Some((id, title@)),
            None => app_entry(*app) is None,
        },
{
    let id = match app.get("appid") {
        Some(appid) => appid.as_u64(),
        None => None,
    };
    let title = match app.get("name") {
        Some(name) => name.as_str(),
        None => None,
    };
    match (id, title) {
        (Some(id), Some(title)) => Some((id, title.to_owned())),
        _ => None,
    }
}

/// Builds the catalog that a document of the endpoint gives.
pub fn catalog_from_document(document: &Json) -> (catalog: Option<Catalog>)
    ensures
        match catalog {
            Some(built) => catalog_of_document(*document) == Some(built@),
            None => catalog_of_document(*document) is None,
        },
{
    let list = match document.get("applist") {
        Some(list) => list,
        None => return None,
    };
    let apps = match list.get("apps") {
        Some(apps) => apps,
        None => return None,
    };
    let items = match apps.as_array() {
        Some(items) => items,
        None => return None,
    };
    let mut catalog = Catalog::new();
    let mut i: usize = 0;
    assert(items@.take(0) == Seq::<Json>::empty());
    while i < items.len()
        invariant
            i <= items.len(),
            app_list(*document) == Some(items@),
            catalog_of_apps(items@.take(i as int)) == Some(catalog@),
        decreases items.len() - i,
    {
        assert(items@.take(i + 1).drop_last() == items@.take(i as int));
        assert(items@.take(i + 1).last() == items@[i as int]);
        match read_app_entry(&items[i]) {
            Some((id, title)) => {
                catalog.insert(id, title);
            },
            None => {
                proof {
                    lemma_prefix_without_catalog(items@, i + 1);
                }
                return None;
            },
        }
        i += 1;
    }
    assert(items@.take(i as int) == items@);
    Some(catalog)
}

/// Builds the catalog from an answer of the endpoint: the HTTP status and the
/// bytes of the body.
///
/// The fetch has failed, with [`AppIdCacheError::ReqwestError`], exactly
/// where [`response_catalog`] is `None`.
pub fn catalog_from_response(status: u16, body: &[u8]) -> (catalog: Result<
    Catalog,
    AppIdCacheError,
>)
    ensures
        match catalog {
            Ok(built) => response_catalog(status, body@) == Some(built@),
            Err(error) => error == AppIdCacheError::ReqwestError && response_catalog(
                status,
                body@,
            ) is None,
        },
{
    if status < 200 || status >= 300 {
        return Err(AppIdCacheError::ReqwestError);
    }
    let document = match Json::parse(body) {
        Some(document) => document,
        None => return Err(AppIdCacheError::ReqwestError),
    };
    match catalog_from_document(&document) {
        Some(built) => Ok(built),
        None => Err(AppIdCacheError::ReqwestError),
    }
}

} // verus!

//! The application catalog, and the text in which the cache file holds it.
//!
//! The cache file is one JSON object. Each key is the decimal form of an
//! application id, each value the title that belongs to it:
//! `{"440":"Team Fortress 2","570":"Dota 2"}`. `serde_json` reads and writes
//! it. What it reads is taken on trust; what it writes is read back before it
//! is handed out.

use std::collections::HashMap;
use vstd::prelude::*;
use vstd::std_specs::iter::IteratorSpec;

verus! {

broadcast use vstd::std_specs::hash::group_hash_axioms;

/// The characters of each title.
pub open spec fn titles_of(entries: Map<u64, String>) -> Map<u64, Seq<char>> {
    entries.map_values(|title: String| title@)
}

/// The application catalog: the title of every application id it knows.
///
/// Its view is the mapping from ids to the characters of their titles.
#[derive(Debug, PartialEq, Eq)]
pub struct Catalog {
    titles: HashMap<u64, String>,
}

impl View for Catalog {
    type V = Map<u64, Seq<char>>;

    closed spec fn view(&self) -> Map<u64, Seq<char>> {
        titles_of(self.titles@)
    }
}

impl Catalog {
    /// The catalog that knows no application.
    pub fn new() -> (catalog: Catalog)
        ensures
            catalog@ == Map::<u64, Seq<char>>::empty(),
    {
        let catalog = Catalog { titles: HashMap::new() };
        assert(catalog@ =~= Map::<u64, Seq<char>>::empty());
        catalog
    }

    /// Records `title` for `appid`, in place of any title recorded before.
    pub fn insert(&mut self, appid: u64, title: String)
        ensures
            final(self)@ == old(self)@.insert(appid, title@),
    {
        self.titles.insert(appid, title);
        assert(self@ =~= old(self)@.insert(appid, title@));
    }

    /// The title recorded for `appid`; `None` where the catalog does not
    /// know the id.
    pub fn get(&self, appid: u64) -> (title: Option<String>)
        ensures
            match title {
                Some(found) => self@.contains_key(appid) && found@ == self@[appid],
                None => !self@.contains_key(appid),
            },
    {
        match self.titles.get(&appid) {
            Some(found) => Some(found.clone()),
            None => None,
        }
    }

    /// The number of applications the catalog knows.
    pub fn len(&self) -> (count: usize)
        ensures
            count == self@.len(),
    {
        assert(self@.dom() =~= self.titles@.dom());
        self.titles.len()
    }

    /// Reads a catalog from the text of a cache file. The result is `None`
    /// exactly where the text is no cache file.
    pub fn from_json(text: &str) -> (catalog: Option<Catalog>)
        ensures
            match catalog {
                Some(read) => decoded_catalog(text@) == Some(read@),
                None => decoded_catalog(text@) is None,
            },
    {
        match decode_titles(text) {
            Ok(titles) => Some(Catalog { titles }),
            Err(_) => None,
        }
    }

    /// Whether `other` knows every application that this catalog knows, and
    /// by the same title.
    pub fn is_part_of(&self, other: &Catalog) -> (part: bool)
        ensures
            part == self@.submap_of(other@),
    {
        for entry in it: self.titles.iter()
            invariant
                it.seq() == self.titles.iter().remaining(),
                forall|j: int|
                    0 <= j < it.index() ==> other@.contains_key(*(#[trigger] it.seq()[j]).0)
                        && other@[*it.seq()[j].0] == it.seq()[j].1@,
        {
            let (appid, title) = entry;
            assert(self@.contains_key(*appid) && self@[*appid] == title@);
            match other.titles.get(appid) {
                Some(found) => {
                    if !(*found == *title) {
                        assert(self@.dom().contains(*appid) && other@.dom().contains(*appid)
                            && other@[*appid] != self@[*appid]);
                        return false;
                    }
                },
                None => {
                    assert(self@.dom().contains(*appid) && !other@.dom().contains(*appid));
                    return false;
                },
            }
        }
        assert forall|appid: u64| self@.contains_key(appid) implies other@.contains_key(appid)
            && self@[appid] == other@[appid] by {
            let entries = self.titles.iter().remaining();
            assert(entries.contains((&appid, &self.titles@[appid])));
        }
        true
    }

    /// Whether `text` is a cache file that reads as this catalog.
    pub fn reads_as(&self, text: &str) -> (same: bool)
        ensures
            same == (decoded_catalog(text@) == Some(self@)),
    {
        match Catalog::from_json(text) {
            Some(read) => {
                let same = read.len() == self.len() && self.is_part_of(&read);
                proof {
                    if same {
                        assert(self@.dom() =~= self.titles@.dom());
                        assert(read@.dom() =~= read.titles@.dom());
                        assert(self@.dom().subset_of(read@.dom()));
                        vstd::set_lib::lemma_subset_equality(self@.dom(), read@.dom());
                        assert(self@ =~= read@);
                    }
                }
                same
            },
            None => false,
        }
    }

    /// Writes the catalog as the text of a cache file, and reads the text
    /// back to make sure of it: text that comes back reads as this catalog
    /// again. The result is `None` where `serde_json` refuses to write, or
    /// writes what does not read as this catalog.
    pub fn to_json(&self) -> (text: Option<String>)
        ensures
            text matches Some(written) ==> decoded_catalog(written@) == Some(self@),
    {
        self.confirm(encode_titles(&self.titles))
    }

    /// What is handed out of what `serde_json` has written for this catalog;
    /// see [`confirmed`].
    pub fn confirm(&self, written: Result<String, serde_json::Error>) -> (text: Option<String>)
        ensures
            text == confirmed(self@, written),
    {
        match written {
            Ok(text) => if self.reads_as(text.as_str()) {
                Some(text)
            } else {
                None
            },
            Err(_) => None,
        }
    }
}

/// What is kept of what `serde_json` has written for `catalog`: the text,
/// where there is one and it reads as `catalog`, and nothing otherwise.
pub open spec fn confirmed(
    catalog: Map<u64, Seq<char>>,
    written: Result<String, serde_json::Error>,
) -> Option<String> {
    match written {
        Ok(text) => if decoded_catalog(text@) == Some(catalog) {
            Some(text)
        } else {
            None
        },
        Err(_) => None,
    }
}

/// The catalog that `serde_json` reads from the text of a cache file, and
/// `None` where it rejects the text.
pub uninterp spec fn decoded_catalog(text: Seq<char>) -> Option<Map<u64, Seq<char>>>;

/// Calls `serde_json::from_str` for a `HashMap<u64, String>`.
///
/// Trusted: that the outcome depends on the text alone, which is all that
/// [`decoded_catalog`] stands for.
#[verifier::external_body]
fn decode_titles(text: &str) -> (r: Result<HashMap<u64, String>, serde_json::Error>)
    ensures
        match r {
            Ok(titles) => decoded_catalog(text@) == Some(titles_of(titles@)),
            Err(_) => decoded_catalog(text@) is None,
        },
{
    serde_json::from_str::<HashMap<u64, String>>(text)
}

/// Calls `serde_json::to_string` on a `HashMap<u64, String>`.
///
/// The members come out in the order in which the map is walked, so the text
/// is not determined by the map, and nothing is promised about it.
#[verifier::external_body]
fn encode_titles(titles: &HashMap<u64, String>) -> Result<String, serde_json::Error> {
    serde_json::to_string(titles)
}

} // verus!

//! The options of the command line.

use vstd::prelude::*;

verus! {

/// What the command line asks for.
#[derive(Debug)]
pub struct Args {
    /// The directory to list, if not the current one.
    pub dir: Option<String>,
    /// Whether to invalidate the cache before anything is looked up.
    pub invalidate_cache: bool,
}

impl Args {
    /// The directory to list: the one that was named, or the current one.
    pub fn search_dir(&self) -> (dir: String)
        ensures
            dir@ == (match self.dir {
                Some(named) => named@,
                None => "."@,
            }),
    {
        match &self.dir {
            Some(named) => named.clone(),
            None => ".".to_owned(),
        }
    }
}

} // verus!

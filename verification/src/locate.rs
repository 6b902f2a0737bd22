//! The file locator: resolve a logical filename against a directory tree,
//! taken as the flat list of entries met by a depth-first walk.

use vstd::prelude::*;
use crate::text::str_eq;
use vstd::string::StringExecFns;

verus! {

/// One entry met while walking the storage root: its full path, its bare
/// name, and whether it is a regular file (directories are walked, never
/// matched).
pub struct FsEntry {
    pub path: String,
    pub name: String,
    pub is_file: bool,
}

/// The entry is a regular file whose name equals the target exactly,
/// case-sensitively.
pub open spec fn entry_matches(e: FsEntry, filename: Seq<char>) -> bool {
    e.is_file && e.name@ == filename
}

/// The position of the first matching entry at or after `i`, if any.
pub open spec fn first_match_from(es: Seq<FsEntry>, filename: Seq<char>, i: int) -> Option<int>
    decreases es.len() - i,
{
    if i < 0 || i >= es.len() {
        None
    } else if entry_matches(es[i], filename) {
        Some(i)
    } else {
        first_match_from(es, filename, i + 1)
    }
}

/// When no first match exists, no entry matches at all.
pub proof fn lemma_no_match(es: Seq<FsEntry>, filename: Seq<char>, i: int)
    requires
        0 <= i <= es.len(),
        first_match_from(es, filename, i) is None,
    ensures
        forall|j: int| i <= j < es.len() ==> !entry_matches(#[trigger] es[j], filename),
    decreases es.len() - i,
{
    if i < es.len() {
        lemma_no_match(es, filename, i + 1);
    }
}

/// Search the walked entries for the target filename and return the path
/// of the first match; absence of a match (and so of the whole directory,
/// which yields no entries) is `None`, never an error.
pub fn find_downloaded_file(entries: &Vec<FsEntry>, filename: &str) -> (r: Option<String>)
    ensures
        match r {
            Some(p) => {
                &&& first_match_from(entries@, filename@, 0) matches Some(i)
                &&& 0 <= i < entries@.len()
                &&& entry_matches(entries@[i], filename@)
                &&& p@ == entries@[i].path@
            },
            None => forall|j: int|
                0 <= j < entries@.len() ==> !entry_matches(#[trigger] entries@[j], filename@),
        },
        (r is Some) == (first_match_from(entries@, filename@, 0) is Some),
{
    let n: usize = entries.len();
    let mut i: usize = 0;
    while i < n
        invariant
            0 <= i <= n,
            n == entries@.len(),
            first_match_from(entries@, filename@, 0) == first_match_from(
                entries@,
                filename@,
                i as int,
            ),
        decreases n - i,
    {
        let e = &entries[i];
        if e.is_file && str_eq(e.name.as_str(), filename) {
            return Some(e.path.clone());
        }
        i = i + 1;
    }
    proof {
        lemma_no_match(entries@, filename@, 0);
    }
    None
}

} // verus!

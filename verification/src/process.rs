//! Presence of a program among the running processes, by the name of its
//! executable.

use crate::error::ErrorKind;
use crate::text::text_eq;
use vstd::prelude::*;
use vstd::string::*;

verus! {

/// What the listing of the processes gave for one process.
#[derive(Debug, Clone, PartialEq, Eq)]
pub enum ProcEntry {
    /// The process could not be read; holds the cause.
    Failed(String),
    /// The process was read, but the path of its executable was not to be
    /// had.
    Hidden,
    /// The process was read; holds the path of its executable.
    Exe(String),
}

/// The stem of the last component of the path `path`: what
/// `std::path::Path::file_stem` returns for it, as text.
pub uninterp spec fn file_stem(path: Seq<char>) -> Option<Seq<char>>;

/// Whether the executable at `path` goes by the name `name`.
pub open spec fn is_named(path: Seq<char>, name: Seq<char>) -> bool {
    file_stem(path) == Some(name)
}

/// What a search through `entries` for the program `name` ends in: the
/// cause of the first entry that failed, if no entry before it is the
/// program; else whether an entry is the program.
pub open spec fn search(entries: Seq<ProcEntry>, name: Seq<char>) -> Result<bool, Seq<char>>
    decreases entries.len(),
{
    if entries.len() == 0 {
        Ok(false)
    } else {
        match entries[0] {
            ProcEntry::Failed(cause) => Err(cause@),
            ProcEntry::Exe(path) if is_named(path@, name) => Ok(true),
            _ => search(entries.skip(1), name),
        }
    }
}

/// A search goes past any entries that neither failed nor are the program.
pub proof fn lemma_search_skips(entries: Seq<ProcEntry>, name: Seq<char>, k: int)
    requires
        0 <= k <= entries.len(),
        forall|i: int|
            0 <= i < k ==> match #[trigger] entries[i] {
                ProcEntry::Failed(_) => false,
                ProcEntry::Exe(path) => !is_named(path@, name),
                ProcEntry::Hidden => true,
            },
    ensures
        search(entries, name) == search(entries.skip(k), name),
    decreases k,
{
    if k > 0 {
        assert(entries[0] == entries[0]);
        let rest = entries.skip(1);
        assert forall|i: int| 0 <= i < k - 1 implies match #[trigger] rest[i] {
            ProcEntry::Failed(_) => false,
            ProcEntry::Exe(path) => !is_named(path@, name),
            ProcEntry::Hidden => true,
        } by {
            assert(rest[i] == entries[i + 1]);
        }
        lemma_search_skips(rest, name, k - 1);
        assert(rest.skip(k - 1) =~= entries.skip(k));
    } else {
        assert(entries.skip(0) =~= entries);
    }
}

/// `std::path::Path::file_stem`, on a path that is given as text. The
/// contract gives the result its name, `file_stem`, and claims nothing
/// else of it.
#[verifier::external_body]
fn path_file_stem(path: &str) -> (stem: Option<String>)
    ensures
        stem is Some == file_stem(path@) is Some,
        stem matches Some(text) ==> file_stem(path@) == Some(text@),
{
    match std::path::Path::new(path).file_stem() {
        Some(stem) => Some(stem.to_string_lossy().into_owned()),
        None => None,
    }
}

/// Whether `stem`, the stem of a path, is the name `name`.
pub fn stem_is(stem: &Option<String>, name: &str) -> (same: bool)
    ensures
        same == (stem matches Some(text) && text@ == name@),
{
    match stem {
        Some(text) => text_eq(text.as_str(), name),
        None => false,
    }
}

/// Whether the executable at `path` goes by the name `name`: whether the
/// stem of the last component of `path` is `name`.
pub fn exe_is_named(path: &str, name: &str) -> (named: bool)
    ensures
        named == is_named(path@, name@),
{
    let stem = path_file_stem(path);
    stem_is(&stem, name)
}

/// Check for running process returning true if the process is running,
/// false if not. `entries` is the listing of the processes, in order.
///
/// An entry that failed ends the search as `ErrorKind::ProcFsErr` with its
/// cause, unless an entry before it is the program.
pub fn pgrep(entries: &Vec<ProcEntry>, name: &str) -> (running: Result<bool, ErrorKind>)
    ensures
        match search(entries@, name@) {
            Ok(found) => running == Ok::<bool, ErrorKind>(found),
            Err(cause) => running matches Err(ErrorKind::ProcFsErr(text)) && text@ == cause,
        },
{
    let mut i: usize = 0;
    while i < entries.len()
        invariant
            i <= entries.len(),
            forall|j: int|
                0 <= j < i ==> match #[trigger] entries@[j] {
                    ProcEntry::Failed(_) => false,
                    ProcEntry::Exe(path) => !is_named(path@, name@),
                    ProcEntry::Hidden => true,
                },
        decreases entries.len() - i,
    {
        proof {
            lemma_search_skips(entries@, name@, i as int);
            assert(entries@.skip(i as int)[0] == entries@[i as int]);
        }
        match &entries[i] {
            ProcEntry::Failed(cause) => {
                return Err(ErrorKind::ProcFsErr(cause.clone()));
            },
            ProcEntry::Exe(path) => {
                if exe_is_named(path.as_str(), name) {
                    return Ok(true);
                }
            },
            ProcEntry::Hidden => {},
        }
        i += 1;
    }
    proof {
        lemma_search_skips(entries@, name@, i as int);
    }
    Ok(false)
}

} // verus!

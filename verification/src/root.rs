//! The storage root as the library sees it: what was found at its path, and
//! which markers make a directory a repository.

use vstd::prelude::*;
use crate::text::str_eq;

verus! {

/// The revision of the storage standard that a repository conforms to.
#[derive(Clone, Copy, Debug, PartialEq, Eq, Structural)]
pub enum SpecVersion {
    Ocfl1_0,
    Ocfl1_1,
}

/// The name of the version marker file.
pub open spec fn marker_name(version: SpecVersion) -> Seq<char> {
    match version {
        SpecVersion::Ocfl1_0 => "0=ocfl_1.0"@,
        SpecVersion::Ocfl1_1 => "0=ocfl_1.1"@,
    }
}

/// The content of the version marker file: the version token on one line.
pub open spec fn marker_content(version: SpecVersion) -> Seq<char> {
    match version {
        SpecVersion::Ocfl1_0 => "ocfl_1.0\n"@,
        SpecVersion::Ocfl1_1 => "ocfl_1.1\n"@,
    }
}

/// The name of the layout declaration file.
pub open spec fn layout_file_name() -> Seq<char> {
    "ocfl_layout.json"@
}

/// Whether a directory entry of this name marks a repository.
pub open spec fn is_marker_name(name: Seq<char>) -> bool {
    name == marker_name(SpecVersion::Ocfl1_0) || name == marker_name(SpecVersion::Ocfl1_1) || name
        == layout_file_name()
}

/// The names of a directory's entries.
pub open spec fn entry_names(entries: Seq<String>) -> Seq<Seq<char>> {
    Seq::new(entries.len(), |i: int| entries[i]@)
}

/// Whether some entry marks a repository.
pub open spec fn has_marker(names: Seq<Seq<char>>) -> bool {
    exists|i: int| 0 <= i < names.len() && is_marker_name(#[trigger] names[i])
}

/// What stands at the path of a storage root.
#[derive(Clone, Copy, Debug, PartialEq, Eq, Structural)]
pub enum RootState {
    /// Nothing is there.
    Absent,
    /// A directory without entries.
    Empty,
    /// A directory that carries a repository marker.
    Initialized,
    /// A directory with entries, none of them a repository marker.
    Occupied,
}

/// The state of a root, from the names of its entries; `None` where nothing
/// stands at the path.
pub open spec fn root_state(listing: Option<Seq<Seq<char>>>) -> RootState {
    match listing {
        None => RootState::Absent,
        Some(names) => if has_marker(names) {
            RootState::Initialized
        } else if names.len() == 0 {
            RootState::Empty
        } else {
            RootState::Occupied
        },
    }
}

/// A storage root is in use when it holds anything at all, a repository
/// marker included.
pub open spec fn root_in_use(listing: Option<Seq<Seq<char>>>) -> bool {
    listing matches Some(names) && (names.len() > 0 || has_marker(names))
}

impl SpecVersion {
    /// The name of the version marker file.
    pub fn marker_name(&self) -> (n: &'static str)
        ensures
            n@ == marker_name(*self),
    {
        match self {
            SpecVersion::Ocfl1_0 => "0=ocfl_1.0",
            SpecVersion::Ocfl1_1 => "0=ocfl_1.1",
        }
    }

    /// The content of the version marker file.
    pub fn marker_content(&self) -> (c: &'static str)
        ensures
            c@ == marker_content(*self),
    {
        match self {
            SpecVersion::Ocfl1_0 => "ocfl_1.0\n",
            SpecVersion::Ocfl1_1 => "ocfl_1.1\n",
        }
    }
}

/// Whether a directory entry of this name marks a repository.
pub fn is_marker(name: &str) -> (b: bool)
    ensures
        b == is_marker_name(name@),
{
    str_eq(name, "0=ocfl_1.0") || str_eq(name, "0=ocfl_1.1") || str_eq(name, "ocfl_layout.json")
}

/// A storage root as it was observed: its path, and the names of the entries
/// found there, or `None` where nothing stands at the path.
#[derive(Clone, Debug, PartialEq, Eq)]
pub struct RepositoryRoot {
    pub path: String,
    pub listing: Option<Vec<String>>,
}

impl RepositoryRoot {
    /// The names of the entries found at the root.
    pub open spec fn names(&self) -> Option<Seq<Seq<char>>> {
        match self.listing {
            Some(entries) => Some(entry_names(entries@)),
            None => None,
        }
    }

    /// Classifies the root by what was found there.
    pub fn state(&self) -> (s: RootState)
        ensures
            s == root_state(self.names()),
    {
        match &self.listing {
            None => RootState::Absent,
            Some(entries) => {
                let ghost names = entry_names(entries@);
                let mut i: usize = 0;
                while i < entries.len()
                    invariant
                        i <= entries@.len(),
                        names == entry_names(entries@),
                        self.names() == Some(names),
                        forall|k: int| 0 <= k < i ==> !is_marker_name(#[trigger] names[k]),
                    decreases entries@.len() - i,
                {
                    if is_marker(entries[i].as_str()) {
                        assert(is_marker_name(names[i as int]));
                        return RootState::Initialized;
                    }
                    i += 1;
                }
                if entries.len() == 0 {
                    RootState::Empty
                } else {
                    RootState::Occupied
                }
            },
        }
    }

    /// Whether the root is in use: it holds entries, or carries a marker.
    pub fn in_use(&self) -> (b: bool)
        ensures
            b == root_in_use(self.names()),
            b == (root_state(self.names()) == RootState::Initialized || root_state(self.names())
                == RootState::Occupied),
    {
        match &self.listing {
            None => false,
            Some(entries) => entries.len() > 0,
        }
    }
}

} // verus!

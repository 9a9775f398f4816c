//! The per-invocation context the engine hands to a filter.
//!
//! A `FilterSource` is a read-only snapshot of what the engine knows about
//! the file being filtered: the owning repository's paths, the target path
//! and file mode, the content id, the transform direction and the engine's
//! source flags. The engine owns the backing data; the bridge exposes it to
//! the filter as plain values for exactly one invocation.

use vstd::prelude::*;

verus! {

/// Direction of the transform.
#[derive(Clone, Copy, Debug, PartialEq, Eq, Structural)]
pub enum FilterMode {
    /// Storage to working tree (smudge).
    ToWorktree,
    /// Working tree to storage (clean).
    ToOdb,
}

/// Read-only context for one filter invocation.
pub struct FilterSource {
    repo_path: Option<String>,
    workdir: Option<String>,
    path: Option<String>,
    id: Vec<u8>,
    mode: FilterMode,
    flags: u32,
    file_mode: u16,
}

impl FilterSource {
    /// The repository's path, when the engine reported one.
    pub closed spec fn spec_repo_path(&self) -> Option<Seq<char>> {
        match self.repo_path {
            Some(p) => Some(p@),
            None => None,
        }
    }

    /// The repository's working directory, absent for bare repositories.
    pub closed spec fn spec_workdir(&self) -> Option<Seq<char>> {
        match self.workdir {
            Some(p) => Some(p@),
            None => None,
        }
    }

    /// The path of the file being filtered, when it is valid text.
    pub closed spec fn spec_path(&self) -> Option<Seq<char>> {
        match self.path {
            Some(p) => Some(p@),
            None => None,
        }
    }

    /// The content id of the blob being filtered.
    pub closed spec fn spec_id(&self) -> Seq<u8> {
        self.id@
    }

    /// The transform direction.
    pub closed spec fn spec_mode(&self) -> FilterMode {
        self.mode
    }

    /// The engine's source flags.
    pub closed spec fn spec_flags(&self) -> u32 {
        self.flags
    }

    /// The file mode of the target path.
    pub closed spec fn spec_file_mode(&self) -> u16 {
        self.file_mode
    }

    /// Assembles the snapshot. Only the layer that sits between the engine
    /// and the bridge builds one; filters merely read it.
    pub fn new(
        repo_path: Option<String>,
        workdir: Option<String>,
        path: Option<String>,
        id: Vec<u8>,
        mode: FilterMode,
        flags: u32,
        file_mode: u16,
    ) -> (r: Self)
        ensures
            r.spec_repo_path() == (match repo_path {
                Some(p) => Some::<Seq<char>>(p@),
                None => None::<Seq<char>>,
            }),
            r.spec_workdir() == (match workdir {
                Some(p) => Some::<Seq<char>>(p@),
                None => None::<Seq<char>>,
            }),
            r.spec_path() == (match path {
                Some(p) => Some::<Seq<char>>(p@),
                None => None::<Seq<char>>,
            }),
            r.spec_id() == id@,
            r.spec_mode() == mode,
            r.spec_flags() == flags,
            r.spec_file_mode() == file_mode,
    {
        FilterSource { repo_path, workdir, path, id, mode, flags, file_mode }
    }

    /// The repository's path.
    pub fn repo_path(&self) -> (r: Option<&String>)
        ensures
            (match r {
                Some(p) => self.spec_repo_path() == Some(p@),
                None => self.spec_repo_path() is None,
            }),
    {
        self.repo_path.as_ref()
    }

    /// The repository's working directory.
    pub fn repo_workdir(&self) -> (r: Option<&String>)
        ensures
            (match r {
                Some(p) => self.spec_workdir() == Some(p@),
                None => self.spec_workdir() is None,
            }),
    {
        self.workdir.as_ref()
    }

    /// The path of the file being filtered.
    pub fn path(&self) -> (r: Option<&String>)
        ensures
            (match r {
                Some(p) => self.spec_path() == Some(p@),
                None => self.spec_path() is None,
            }),
    {
        self.path.as_ref()
    }

    /// The content id of the blob being filtered.
    pub fn id(&self) -> (r: &Vec<u8>)
        ensures
            r@ == self.spec_id(),
    {
        &self.id
    }

    /// The transform direction.
    pub fn mode(&self) -> (r: FilterMode)
        ensures
            r == self.spec_mode(),
    {
        self.mode
    }

    /// The engine's source flags.
    pub fn flags(&self) -> (r: u32)
        ensures
            r == self.spec_flags(),
    {
        self.flags
    }

    /// The file mode of the target path.
    pub fn file_mode(&self) -> (r: u16)
        ensures
            r == self.spec_file_mode(),
    {
        self.file_mode
    }
}

} // verus!

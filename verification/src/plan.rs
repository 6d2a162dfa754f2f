//! The workspace plan: the exact directories and files a materialization
//! will produce, as plain values. The unverified front end carries a plan
//! out on the filesystem; everything up to that point is computed and
//! specified here.

use vstd::prelude::*;

verus! {

/// One file to write: its path segments relative to the workspace root,
/// its full text, and whether it must be marked executable.
#[derive(Debug)]
pub struct FileAction {
    pub path: Vec<String>,
    pub content: String,
    pub executable: bool,
}

/// What a `FileAction` says, at the specification level.
#[verifier::ext_equal]
pub ghost struct FileActionView {
    pub path: Seq<Seq<char>>,
    pub content: Seq<char>,
    pub executable: bool,
}

impl View for FileAction {
    type V = FileActionView;

    open spec fn view(&self) -> FileActionView {
        FileActionView {
            path: self.path.deep_view(),
            content: self.content@,
            executable: self.executable,
        }
    }
}

/// Everything a materialization will create: directories first (created in
/// order, idempotently), then files (each written whole, never patched).
#[derive(Debug)]
pub struct WorkspacePlan {
    pub dirs: Vec<Vec<String>>,
    pub files: Vec<FileAction>,
}

/// What a `WorkspacePlan` says, at the specification level.
#[verifier::ext_equal]
pub ghost struct WorkspacePlanView {
    pub dirs: Seq<Seq<Seq<char>>>,
    pub files: Seq<FileActionView>,
}

impl View for WorkspacePlan {
    type V = WorkspacePlanView;

    open spec fn view(&self) -> WorkspacePlanView {
        WorkspacePlanView {
            dirs: self.dirs.deep_view(),
            files: Seq::new(self.files@.len(), |i: int| self.files@[i]@),
        }
    }
}

impl WorkspacePlan {
    /// An empty plan: nothing to create.
    pub fn new() -> (r: WorkspacePlan)
        ensures
            r@.dirs == Seq::<Seq<Seq<char>>>::empty(),
            r@.files == Seq::<FileActionView>::empty(),
    {
        let r = WorkspacePlan { dirs: Vec::new(), files: Vec::new() };
        proof {
            assert(r@.dirs =~= Seq::<Seq<Seq<char>>>::empty());
            assert(r@.files =~= Seq::<FileActionView>::empty());
        }
        r
    }

    /// Records one directory to create.
    pub fn push_dir(&mut self, path: Vec<String>)
        ensures
            final(self)@.dirs == old(self)@.dirs.push(path.deep_view()),
            final(self)@.files == old(self)@.files,
    {
        self.dirs.push(path);
        proof {
            assert(self@.dirs =~= old(self)@.dirs.push(path.deep_view()));
            assert(self@.files =~= old(self)@.files);
        }
    }

    /// Records one file to write.
    pub fn push_file(&mut self, file: FileAction)
        ensures
            final(self)@.dirs == old(self)@.dirs,
            final(self)@.files == old(self)@.files.push(file@),
    {
        self.files.push(file);
        proof {
            assert(self@.dirs =~= old(self)@.dirs);
            assert(self@.files =~= old(self)@.files.push(file@));
        }
    }
}

/// Raised when a unit declares a namespace whose terminator is missing;
/// names the offending file. The whole materialization stops there.
#[derive(Debug)]
pub struct MalformedSourceError {
    pub file: String,
}

} // verus!

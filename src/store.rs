//! The ordered list of files that the operating system asked to open and the
//! front end has not yet consumed.

use vstd::prelude::*;

verus! {

/// Paths of opened files, oldest first. Never deduplicated: opening the same
/// file twice stores it twice.
pub struct OpenedFiles {
    files: Vec<String>,
}

impl View for OpenedFiles {
    type V = Seq<String>;

    closed spec fn view(&self) -> Seq<String> {
        self.files@
    }
}

/// The contents after `path` is appended to `files`.
pub open spec fn appended(files: Seq<String>, path: String) -> Seq<String> {
    files.push(path)
}

impl OpenedFiles {
    /// An empty list.
    pub fn new() -> (r: OpenedFiles)
        ensures
            r@ == Seq::<String>::empty(),
    {
        OpenedFiles { files: Vec::new() }
    }

    /// Adds `path` at the end.
    pub fn append(&mut self, path: String)
        ensures
            final(self)@ == appended(old(self)@, path),
    {
        self.files.push(path);
    }

    /// Adds each of `paths` at the end, in order.
    pub fn append_all(&mut self, paths: &Vec<String>)
        ensures
            final(self)@ == old(self)@ + paths@,
    {
        let mut i: usize = 0;
        while i < paths.len()
            invariant
                0 <= i <= paths.len(),
                self@ == old(self)@ + paths@.take(i as int),
            decreases paths.len() - i,
        {
            assert(paths@.take(i + 1) =~= paths@.take(i as int).push(paths@[i as int]));
            self.append(paths[i].clone());
            i = i + 1;
        }
        assert(paths@.take(paths.len() as int) =~= paths@);
    }

    /// A snapshot of the stored paths, oldest first; the list is left as it is.
    pub fn get_opened_files(&self) -> (r: Vec<String>)
        ensures
            r@ == self@,
    {
        self.files.clone()
    }

    /// Empties the list.
    pub fn clear_opened_files(&mut self)
        ensures
            final(self)@ == Seq::<String>::empty(),
    {
        self.files.clear();
    }
}

/// After an append, a snapshot ends with the appended path and keeps every
/// earlier entry in its place.
pub proof fn append_then_snapshot(files: Seq<String>, path: String)
    ensures
        appended(files, path).len() == files.len() + 1,
        appended(files, path).last() == path,
        forall|i: int| 0 <= i < files.len() ==> appended(files, path)[i] == files[i],
{
}

} // verus!

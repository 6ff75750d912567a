//! The opened-files registry: one shared slot holding the most recent list
//! of opened file paths.  This layer only reads it, by copying the contents
//! out; an external collaborator performs every write.  Callers that share
//! one registry across threads guard it with a single lock outside this
//! crate.

use vstd::prelude::*;

verus! {

/// The shared slot: absent until first populated, then an ordered sequence
/// of path strings.
#[derive(Debug, Clone)]
pub struct OpenedFiles {
    pub files: Option<Vec<String>>,
}

impl OpenedFiles {
    /// What a read returns: the recorded sequence, or empty while the slot
    /// has never been written.
    pub open spec fn snapshot(self) -> Seq<String> {
        match self.files {
            Some(f) => f@,
            None => Seq::<String>::empty(),
        }
    }

    /// A fresh, never-written registry.
    pub fn new() -> (r: OpenedFiles)
        ensures
            r.files is None,
            r.snapshot() == Seq::<String>::empty(),
    {
        OpenedFiles { files: None }
    }

    /// Records a new list of opened paths, replacing any earlier one.  This
    /// is the external collaborator's write.
    pub fn set(&mut self, files: Vec<String>)
        ensures
            final(self).files == Some(files),
            final(self).snapshot() == files@,
    {
        self.files = Some(files);
    }

    /// Reads the registry by copying its contents out: the recorded paths in
    /// order, or an empty list if nothing was ever recorded.  The caller
    /// never receives a live reference into the slot.
    pub fn opened_files(&self) -> (r: Vec<String>)
        ensures
            r@ == self.snapshot(),
    {
        match &self.files {
            Some(f) => {
                let out = f.clone();
                proof {
                    assert forall|i: int| 0 <= i < out@.len() implies out@[i] == f@[i] by {
                        assert(cloned::<String>(f@[i], out@[i]));
                    }
                    assert(out@ =~= f@);
                }
                out
            },
            None => Vec::new(),
        }
    }
}

/// The registry's read is exactly its write history's last state: a registry
/// that was never written reads back empty, and one holding a written list
/// reads back exactly that list, in order.
pub proof fn lemma_registry_copy_out(r0: OpenedFiles, files: Vec<String>, r1: OpenedFiles)
    requires
        r0.files is None,
        r1.files == Some(files),
    ensures
        r0.snapshot() == Seq::<String>::empty(),
        r1.snapshot() == files@,
{
}

} // verus!

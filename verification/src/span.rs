//! The span model: an immutable, zero-copy reference into the original
//! source buffer, with an optional detached owned text for synthetic trees
//! that must outlive the buffer.

use vstd::prelude::*;
use vstd::slice::slice_subrange;

verus! {

/// A reference to a contiguous run of characters of the original source:
/// character offset, line number and length.  `val` is the detached-text
/// fallback: when present, it stands in for the real slice, so the tree
/// stays valid independently of the source buffer's lifetime.
///
/// A `Locate` is produced only by a successful terminal-level parse (or
/// built directly for a synthetic tree) and is never mutated afterwards.
#[derive(Debug, Clone)]
pub struct Locate {
    pub offset: usize,
    pub line: u32,
    pub len: usize,
    pub val: Option<Vec<char>>,
}

impl Locate {
    /// The text this span denotes, as a function of the source: the exact
    /// substring covering `[offset, offset + len)`, unless a detached text
    /// is present, in which case that text is substituted for it.
    pub open spec fn text_of(self, src: Seq<char>) -> Seq<char> {
        match self.val {
            Some(v) => v@,
            None => src.subrange(self.offset as int, self.offset + self.len),
        }
    }

    /// Well-formed against a given source: an attached span lies inside the
    /// source; a detached text has the span's own length, that is, it equals
    /// in extent what the real slice would have been.
    pub open spec fn wf(self, src: Seq<char>) -> bool {
        match self.val {
            Some(v) => v@.len() == self.len,
            None => self.offset + self.len <= src.len(),
        }
    }

    /// Pure accessor for the covered text; no error conditions, since a
    /// `Locate` is well-formed by construction.  Zero-copy: the result
    /// borrows from the source (or from the detached text).
    pub fn str<'a>(&'a self, source: &'a [char]) -> (r: &'a [char])
        requires
            self.wf(source@),
        ensures
            r@ == self.text_of(source@),
            r@.len() == self.len,
    {
        match &self.val {
            Some(v) => v.as_slice(),
            None => {
                let n = source.len();
                proof {
                    assert(self.offset + self.len <= n);
                }
                slice_subrange(source, self.offset, self.offset + self.len)
            },
        }
    }
}

} // verus!

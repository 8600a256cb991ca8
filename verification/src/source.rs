//! A pending data source and its exactly-once transfer-or-free discipline.
//!
//! The engine issues a source handle for a byte buffer, a file path, or an
//! already-open file.  Some engine calls take ownership of that handle, but
//! only when they succeed; otherwise the caller still owns it and must free
//! it exactly once.  `Source` tracks that obligation: it is `live` until it
//! is either marked transferred (`taken`) or handed out for freeing
//! (`release`), and each of those nulls it irreversibly.

use vstd::prelude::*;

use core::marker::PhantomData;
use crate::error::Error;

verus! {

/// Marker for a source that wraps a file, named by path or already open.
/// Used only as a provenance tag on `Source`; never constructed.
pub enum File {
    Handle,
}

/// A data source handle the engine can pull bytes from, tagged by its origin.
/// The tag documents provenance only; the lifecycle does not depend on it.
#[verifier::reject_recursive_types(T)]
#[derive(Debug)]
pub struct Source<T> {
    handle: usize,
    origin: PhantomData<T>,
}

/// A release step: `freed` is the handle the engine's free routine must be
/// given — the source's own handle if it was still live, nothing otherwise —
/// and the source is left null either way.
pub open spec fn released<T>(pre: Source<T>, post: Source<T>, freed: Option<usize>) -> bool {
    &&& freed == if pre.is_live() { Some(pre.raw()) } else { None::<usize> }
    &&& !post.is_live()
}

/// The effect of offering a source to a consuming engine call: ownership
/// moves exactly when the call succeeded; on failure the source is untouched
/// and still owns its handle.
pub open spec fn transfer_effect<T>(pre: Source<T>, post: Source<T>, accepted: bool) -> bool {
    if accepted {
        !post.is_live()
    } else {
        post == pre
    }
}

impl<T> Source<T> {
    /// The raw handle this source was built around; null once transferred or
    /// released.
    pub closed spec fn raw(self) -> usize {
        self.handle
    }

    /// Whether this source still owns a live handle.
    pub open spec fn is_live(self) -> bool {
        self.raw() != 0
    }

    /// Settle a source-creation call: the engine returned `handle`, filling
    /// `error` on failure.  A null handle is the failure sentinel and yields
    /// the translated error; anything else becomes a live source owning it.
    pub fn try_from_raw(handle: usize, error: Error) -> (r: Result<Source<T>, Error>)
        ensures
            handle == 0 ==> r === Err(error),
            handle != 0 ==> (r matches Ok(s) && s.raw() == handle && s.is_live()),
    {
        if handle == 0 {
            Err(error)
        } else {
            Ok(Source { handle, origin: PhantomData })
        }
    }

    /// Mark this source transferred: a consuming engine call succeeded and
    /// now owns the handle, so the eventual release must free nothing.
    pub fn taken(&mut self)
        ensures
            !final(self).is_live(),
    {
        self.handle = 0;
    }

    /// The raw handle to pass to an engine call, unchanged.
    pub fn handle_mut(&mut self) -> (h: usize)
        ensures
            h == old(self).raw(),
            *final(self) == *old(self),
    {
        self.handle
    }

    /// End this source's life: yields the handle the engine's free routine
    /// must be given, or nothing if ownership was already transferred or the
    /// handle already freed.  Either way the source is null afterwards, so
    /// the handle is handed out for freeing at most once.
    pub fn release(&mut self) -> (freed: Option<usize>)
        ensures
            released(*old(self), *final(self), freed),
    {
        let h = self.handle;
        self.handle = 0;
        if h == 0 {
            None
        } else {
            Some(h)
        }
    }
}

/// A source's handle is freed at most once and, while the source is live, at
/// least once: the first release of a live source yields the handle, and any
/// later release yields nothing.
pub proof fn lemma_release_exactly_once<T>(
    s0: Source<T>,
    s1: Source<T>,
    f1: Option<usize>,
    s2: Source<T>,
    f2: Option<usize>,
)
    requires
        released(s0, s1, f1),
        released(s1, s2, f2),
    ensures
        s0.is_live() ==> f1 == Some(s0.raw()),
        f2 is None,
{
}

/// Once ownership has moved to the engine, releasing the source frees
/// nothing: the handle is never freed on both sides.
pub proof fn lemma_no_free_after_transfer<T>(
    s0: Source<T>,
    s1: Source<T>,
    s2: Source<T>,
    freed: Option<usize>,
)
    requires
        transfer_effect(s0, s1, true),
        released(s1, s2, freed),
    ensures
        freed is None,
{
}

/// Ownership moves only on success: after a consuming call failed, the
/// source still owns its handle, and releasing it still frees that handle.
pub proof fn lemma_transfer_only_on_success<T>(
    s0: Source<T>,
    s1: Source<T>,
    s2: Source<T>,
    freed: Option<usize>,
)
    requires
        s0.is_live(),
        transfer_effect(s0, s1, false),
        released(s1, s2, freed),
    ensures
        freed == Some(s0.raw()),
{
}

} // verus!

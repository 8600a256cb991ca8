//! The top-level archive handle: opening from a source, entry mutations, and
//! finalization by commit or discard.
//!
//! An archive is open from the moment a successful engine open is settled
//! until a close succeeds or it is discarded; no operation other than
//! finalization is valid afterwards, and finalizing again owes the engine
//! nothing.  Every consuming engine call routed through here marks the
//! offered source transferred exactly when the engine accepted it.

use vstd::prelude::*;

use crate::error::Error;
use crate::file::Encoding;
use crate::file::File;
use crate::file::ZIP_FL_OVERWRITE;
use crate::file::encoding_bit;
use crate::file::encoding_flag;
use crate::source::Source;
use crate::source::transfer_effect;

verus! {

/// Archive open-mode bits of the native engine's public header.
pub const ZIP_CREATE: u32 = 1;
pub const ZIP_EXCL: u32 = 2;
pub const ZIP_CHECKCONS: u32 = 4;
pub const ZIP_TRUNCATE: u32 = 8;
pub const ZIP_RDONLY: u32 = 16;

/// Options when opening an archive.
#[derive(Debug, Clone, Copy, PartialEq, Eq, Hash)]
pub enum OpenFlag {
    CheckConsistency,
    Create,
    Exclusive,
    Truncate,
    ReadOnly,
}

/// The mode bit one open option stands for.
pub open spec fn archive_flag_bit(f: OpenFlag) -> u32 {
    match f {
        OpenFlag::CheckConsistency => ZIP_CHECKCONS,
        OpenFlag::Create => ZIP_CREATE,
        OpenFlag::Exclusive => ZIP_EXCL,
        OpenFlag::Truncate => ZIP_TRUNCATE,
        OpenFlag::ReadOnly => ZIP_RDONLY,
    }
}

/// The open options OR-combined onto an accumulated mask.
pub open spec fn archive_flags_fold(flags: Seq<OpenFlag>, acc: u32) -> u32
    decreases flags.len(),
{
    if flags.len() == 0 {
        acc
    } else {
        archive_flags_fold(flags.drop_last(), acc) | archive_flag_bit(flags.last())
    }
}

/// The full mode mask handed to the engine when an archive is opened.
pub open spec fn open_flags_mask_spec(flags: Seq<OpenFlag>) -> u32 {
    archive_flags_fold(flags, 0)
}

/// Build the engine's open-mode mask from an option set.
pub fn open_flags_mask(flags: &[OpenFlag]) -> (r: u32)
    ensures
        r == open_flags_mask_spec(flags@),
{
    let mut mask: u32 = 0;
    let mut i: usize = 0;
    while i < flags.len()
        invariant
            i <= flags.len(),
            mask == archive_flags_fold(flags@.subrange(0, i as int), 0),
        decreases flags.len() - i,
    {
        let bit = match flags[i] {
            OpenFlag::CheckConsistency => ZIP_CHECKCONS,
            OpenFlag::Create => ZIP_CREATE,
            OpenFlag::Exclusive => ZIP_EXCL,
            OpenFlag::Truncate => ZIP_TRUNCATE,
            OpenFlag::ReadOnly => ZIP_RDONLY,
        };
        proof {
            assert(flags@.subrange(0, i + 1 as int).drop_last() =~= flags@.subrange(0, i as int));
        }
        mask = mask | bit;
        i = i + 1;
    }
    proof {
        assert(flags@.subrange(0, flags@.len() as int) =~= flags@);
    }
    mask
}

/// The flag mask handed to the engine when an entry is added: the encoding
/// selection's bit, plus the overwrite bit when replacement was requested.
pub open spec fn add_flags_mask_spec(encoding: Encoding, overwrite: bool) -> u32 {
    encoding_bit(encoding) | if overwrite { ZIP_FL_OVERWRITE } else { 0u32 }
}

/// Build the engine mask for adding an entry.
pub fn add_flags_mask(encoding: Encoding, overwrite: bool) -> (r: u32)
    ensures
        r == add_flags_mask_spec(encoding, overwrite),
{
    let base = encoding_flag(encoding);
    if overwrite {
        base | ZIP_FL_OVERWRITE
    } else {
        base | 0
    }
}

/// An open ZIP archive, owning the engine's top-level handle.
#[derive(Debug)]
pub struct Archive {
    handle: usize,
}

/// The effect of settling a close answer: a successful close finalizes the
/// archive; a failed one leaves it intact, still open and still mutable, for
/// a retry or a fallback discard.
pub open spec fn close_effect(pre: Archive, post: Archive, committed: bool) -> bool {
    if committed {
        !post.is_open()
    } else {
        post == pre
    }
}

impl Archive {
    /// The raw archive handle; null exactly once the archive is finalized.
    pub closed spec fn raw(self) -> usize {
        self.handle
    }

    /// Whether the archive is still open, that is, not yet finalized.
    pub open spec fn is_open(self) -> bool {
        self.raw() != 0
    }

    /// The handle finalization owes the engine: the archive's own while it is
    /// open, nothing once finalized — finalizing again is a no-op and the
    /// engine must not be called a second time.
    pub open spec fn finalize_target_spec(self) -> Option<usize> {
        if self.is_open() {
            Some(self.raw())
        } else {
            None
        }
    }

    /// Settle the engine's open-from-source call: `raw_archive` is the handle
    /// it returned, `error` the translated out-parameter record.  On success
    /// the engine has taken the source's handle, so the source is marked
    /// transferred; on failure it is left intact and will free its handle
    /// normally.
    pub fn open<S>(source: &mut Source<S>, raw_archive: usize, error: Error) -> (r: Result<
        Archive,
        Error,
    >)
        requires
            old(source).is_live(),
        ensures
            transfer_effect(*old(source), *final(source), raw_archive != 0),
            raw_archive != 0 ==> (r matches Ok(a) && a.raw() == raw_archive && a.is_open()),
            raw_archive == 0 ==> r === Err(error),
    {
        if raw_archive == 0 {
            Err(error)
        } else {
            source.taken();
            Ok(Archive { handle: raw_archive })
        }
    }

    /// Settle an add-entry call: `index` is what the engine returned for the
    /// offered source — the new entry's index, or the negative sentinel with
    /// `error` captured from this archive's error state.  Ownership of the
    /// source moves exactly on success.
    pub fn add<S>(&mut self, source: &mut Source<S>, index: i64, error: Error) -> (r: Result<
        u64,
        Error,
    >)
        requires
            old(self).is_open(),
            old(source).is_live(),
            index >= -1,
        ensures
            *final(self) == *old(self),
            transfer_effect(*old(source), *final(source), index != -1),
            index == -1 ==> r === Err(error),
            index >= 0 ==> r === Ok(index as u64),
    {
        if index == -1 {
            Err(error)
        } else {
            source.taken();
            Ok(index as u64)
        }
    }

    /// Settle a replace-entry call, with the same transfer semantics as
    /// `add`: the engine's status is zero on success, the negative sentinel
    /// on failure, and the source moves exactly on success.
    pub fn replace<S>(&mut self, source: &mut Source<S>, status: i32, error: Error) -> (r: Result<
        (),
        Error,
    >)
        requires
            old(self).is_open(),
            old(source).is_live(),
        ensures
            *final(self) == *old(self),
            transfer_effect(*old(source), *final(source), status != -1),
            status == -1 ==> r === Err(error),
            status != -1 ==> r is Ok,
    {
        if status == -1 {
            Err(error)
        } else {
            source.taken();
            Ok(())
        }
    }

    /// Settle the engine's set-entry-encryption call: the negative sentinel
    /// yields the translated error, anything else succeeds.
    pub fn set_encryption_on_file(&mut self, status: i32, error: Error) -> (r: Result<(), Error>)
        requires
            old(self).is_open(),
        ensures
            *final(self) == *old(self),
            status == -1 ==> r === Err(error),
            status != -1 ==> r is Ok,
    {
        if status == -1 {
            Err(error)
        } else {
            Ok(())
        }
    }

    /// Settle the engine's set-default-password call: the negative sentinel
    /// yields the translated error, anything else succeeds.
    pub fn set_encryption_password(&mut self, status: i32, error: Error) -> (r: Result<(), Error>)
        requires
            old(self).is_open(),
        ensures
            *final(self) == *old(self),
            status == -1 ==> r === Err(error),
            status != -1 ==> r is Ok,
    {
        if status == -1 {
            Err(error)
        } else {
            Ok(())
        }
    }

    /// Settle an open-entry call: a null handle is the failure sentinel and
    /// yields the translated error; anything else becomes a `File` borrowing
    /// this archive, so the archive cannot be finalized while the entry stays
    /// open.
    pub fn open_file<'a>(&'a mut self, raw_file: usize, error: Error) -> (r: Result<
        File<'a>,
        Error,
    >)
        requires
            old(self).is_open(),
        ensures
            *final(self) == *old(self),
            raw_file == 0 ==> r === Err(error),
            raw_file != 0 ==> (r matches Ok(f) && f.raw() == raw_file && f.is_open_entry()),
    {
        if raw_file == 0 {
            Err(error)
        } else {
            Ok(File::attach(raw_file))
        }
    }

    /// The handle the engine's close or discard call must be given; nothing
    /// once the archive is finalized, when finalization is a no-op.
    pub fn finalize_target(&self) -> (t: Option<usize>)
        ensures
            t == self.finalize_target_spec(),
    {
        if self.handle == 0 {
            None
        } else {
            Some(self.handle)
        }
    }

    /// Settle the engine's commit answer: zero finalizes the archive; any
    /// other status yields the translated error and leaves the archive
    /// intact — still open, still mutable — so the caller may retry the close
    /// or fall back to `discard`.
    pub fn close(&mut self, status: i32, error: Error) -> (r: Result<(), Error>)
        requires
            old(self).is_open(),
        ensures
            close_effect(*old(self), *final(self), status == 0),
            status == 0 ==> r is Ok,
            status != 0 ==> r === Err(error),
    {
        if status == 0 {
            self.handle = 0;
            Ok(())
        } else {
            Err(error)
        }
    }

    /// Abandon all pending mutations: the archive is finalized
    /// unconditionally, and a discard cannot fail.  The handle the engine's
    /// discard call was owed is the one `finalize_target` named beforehand.
    pub fn discard(&mut self)
        ensures
            !final(self).is_open(),
    {
        self.handle = 0;
    }
}

/// Finalization is idempotent: once an archive has been finalized — a close
/// succeeded or it was discarded — finalization owes the engine nothing, so
/// a repeated close or discard never invokes the engine a second time.
pub proof fn lemma_finalized_is_noop(a: Archive)
    requires
        !a.is_open(),
    ensures
        a.finalize_target_spec() is None,
{
}

/// Discard is safe after a failed close: the failure leaves the archive
/// exactly as it was, still open, and finalization owes the engine exactly
/// the original handle — and discard itself has no failure path.
pub proof fn lemma_discard_safe_after_failed_close(pre: Archive, post: Archive)
    requires
        pre.is_open(),
        close_effect(pre, post, false),
    ensures
        post.finalize_target_spec() == Some(pre.raw()),
{
}

} // verus!

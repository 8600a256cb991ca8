//! An open entry inside an archive, read and sought as a byte stream, plus
//! the entry-level flag sets and their bit masks.
//!
//! A `File` owns the engine's open-entry handle and borrows its parent
//! `Archive` for its whole life, so the archive cannot be finalized while an
//! entry derived from it is still open.  The flag enumerations here are the
//! entry-level option sets; each translates losslessly into the engine's
//! OR-combined bit mask.

use vstd::prelude::*;

use core::marker::PhantomData;
use crate::archive::Archive;
use crate::error::Error;

verus! {

/// Entry-level flag bits of the native engine's public header.
pub const ZIP_FL_NOCASE: u32 = 1;
pub const ZIP_FL_NODIR: u32 = 2;
pub const ZIP_FL_COMPRESSED: u32 = 4;
pub const ZIP_FL_UNCHANGED: u32 = 8;
pub const ZIP_FL_ENC_GUESS: u32 = 0;
pub const ZIP_FL_ENC_RAW: u32 = 64;
pub const ZIP_FL_ENC_STRICT: u32 = 128;
pub const ZIP_FL_ENC_UTF_8: u32 = 2048;
pub const ZIP_FL_ENC_CP437: u32 = 4096;
pub const ZIP_FL_OVERWRITE: u32 = 8192;

/// Encryption method codes of the native engine's public header.
pub const ZIP_EM_NONE: u16 = 0;
pub const ZIP_EM_TRAD_PKWARE: u16 = 1;
pub const ZIP_EM_AES_128: u16 = 257;
pub const ZIP_EM_AES_192: u16 = 258;
pub const ZIP_EM_AES_256: u16 = 259;

/// Whence codes for the engine's entry seek call.
pub const SEEK_SET: i32 = 0;
pub const SEEK_CUR: i32 = 1;
pub const SEEK_END: i32 = 2;

/// How an entry name is interpreted and stored.
#[derive(Debug, Clone, Copy, PartialEq, Eq, Hash)]
pub enum Encoding {
    Guess,
    Utf8,
    Cp437,
}

/// Options when opening an entry for reading.
#[derive(Debug, Clone, Copy, PartialEq, Eq, Hash)]
pub enum OpenFlag {
    Compressed,
    Unchanged,
}

/// Options when locating an entry by name.
#[derive(Debug, Clone, Copy, PartialEq, Eq, Hash)]
pub enum LocateFlag {
    NoCase,
    NoDir,
    EncodingRaw,
    EncodingGuess,
    EncodingStrict,
}

/// Encryption methods selectable for one entry.
#[derive(Debug, Clone, Copy, PartialEq, Eq, Hash)]
pub enum Encryption {
    NoEncryption,
    AES128,
    AES192,
    AES256,
    PkWare,
}

/// Positions a seek can be made relative to, with its offset.
#[derive(Debug, Clone, Copy, PartialEq, Eq, Hash)]
pub enum SeekFrom {
    Start(u64),
    End(i64),
    Current(i64),
}

/// The flag bit an encoding selection stands for.
pub open spec fn encoding_bit(e: Encoding) -> u32 {
    match e {
        Encoding::Guess => ZIP_FL_ENC_GUESS,
        Encoding::Utf8 => ZIP_FL_ENC_UTF_8,
        Encoding::Cp437 => ZIP_FL_ENC_CP437,
    }
}

/// The method code an encryption selection stands for.
pub open spec fn encryption_code(e: Encryption) -> u16 {
    match e {
        Encryption::NoEncryption => ZIP_EM_NONE,
        Encryption::AES128 => ZIP_EM_AES_128,
        Encryption::AES192 => ZIP_EM_AES_192,
        Encryption::AES256 => ZIP_EM_AES_256,
        Encryption::PkWare => ZIP_EM_TRAD_PKWARE,
    }
}

/// The flag bit one open option stands for.
pub open spec fn open_flag_bit(f: OpenFlag) -> u32 {
    match f {
        OpenFlag::Compressed => ZIP_FL_COMPRESSED,
        OpenFlag::Unchanged => ZIP_FL_UNCHANGED,
    }
}

/// The flag bit one locate option stands for.
pub open spec fn locate_flag_bit(f: LocateFlag) -> u32 {
    match f {
        LocateFlag::NoCase => ZIP_FL_NOCASE,
        LocateFlag::NoDir => ZIP_FL_NODIR,
        LocateFlag::EncodingRaw => ZIP_FL_ENC_RAW,
        LocateFlag::EncodingGuess => ZIP_FL_ENC_GUESS,
        LocateFlag::EncodingStrict => ZIP_FL_ENC_STRICT,
    }
}

/// The open-option bits OR-combined onto an accumulated mask.
pub open spec fn open_flags_fold(flags: Seq<OpenFlag>, acc: u32) -> u32
    decreases flags.len(),
{
    if flags.len() == 0 {
        acc
    } else {
        open_flags_fold(flags.drop_last(), acc) | open_flag_bit(flags.last())
    }
}

/// The locate-option bits OR-combined onto an accumulated mask.
pub open spec fn locate_flags_fold(flags: Seq<LocateFlag>, acc: u32) -> u32
    decreases flags.len(),
{
    if flags.len() == 0 {
        acc
    } else {
        locate_flags_fold(flags.drop_last(), acc) | locate_flag_bit(flags.last())
    }
}

/// The full mask handed to the engine when an entry is opened: every open
/// option's bit and every locate option's bit, OR-combined.
pub open spec fn file_flags_mask_spec(
    open_flags: Seq<OpenFlag>,
    locate_flags: Seq<LocateFlag>,
) -> u32 {
    locate_flags_fold(locate_flags, open_flags_fold(open_flags, 0))
}

/// The name-encoding flag bit: guess, UTF-8, or legacy code page 437.
pub fn encoding_flag(e: Encoding) -> (r: u32)
    ensures
        r == encoding_bit(e),
{
    match e {
        Encoding::Guess => ZIP_FL_ENC_GUESS,
        Encoding::Utf8 => ZIP_FL_ENC_UTF_8,
        Encoding::Cp437 => ZIP_FL_ENC_CP437,
    }
}

/// The encryption method code handed to the engine for one entry.
pub fn encryption_mode(e: Encryption) -> (r: u16)
    ensures
        r == encryption_code(e),
{
    match e {
        Encryption::NoEncryption => ZIP_EM_NONE,
        Encryption::AES128 => ZIP_EM_AES_128,
        Encryption::AES192 => ZIP_EM_AES_192,
        Encryption::AES256 => ZIP_EM_AES_256,
        Encryption::PkWare => ZIP_EM_TRAD_PKWARE,
    }
}

/// Build the engine mask for opening an entry from the two option sets.
pub fn file_flags_mask(open_flags: &[OpenFlag], locate_flags: &[LocateFlag]) -> (r: u32)
    ensures
        r == file_flags_mask_spec(open_flags@, locate_flags@),
{
    let mut mask: u32 = 0;
    let mut i: usize = 0;
    while i < open_flags.len()
        invariant
            i <= open_flags.len(),
            mask == open_flags_fold(open_flags@.subrange(0, i as int), 0),
        decreases open_flags.len() - i,
    {
        let bit = match open_flags[i] {
            OpenFlag::Compressed => ZIP_FL_COMPRESSED,
            OpenFlag::Unchanged => ZIP_FL_UNCHANGED,
        };
        proof {
            assert(open_flags@.subrange(0, i + 1 as int).drop_last() =~= open_flags@.subrange(
                0,
                i as int,
            ));
        }
        mask = mask | bit;
        i = i + 1;
    }
    proof {
        assert(open_flags@.subrange(0, open_flags@.len() as int) =~= open_flags@);
    }
    let mut j: usize = 0;
    while j < locate_flags.len()
        invariant
            j <= locate_flags.len(),
            mask == locate_flags_fold(
                locate_flags@.subrange(0, j as int),
                open_flags_fold(open_flags@, 0),
            ),
        decreases locate_flags.len() - j,
    {
        let bit = match locate_flags[j] {
            LocateFlag::NoCase => ZIP_FL_NOCASE,
            LocateFlag::NoDir => ZIP_FL_NODIR,
            LocateFlag::EncodingRaw => ZIP_FL_ENC_RAW,
            LocateFlag::EncodingGuess => ZIP_FL_ENC_GUESS,
            LocateFlag::EncodingStrict => ZIP_FL_ENC_STRICT,
        };
        proof {
            assert(locate_flags@.subrange(0, j + 1 as int).drop_last() =~= locate_flags@.subrange(
                0,
                j as int,
            ));
        }
        mask = mask | bit;
        j = j + 1;
    }
    proof {
        assert(locate_flags@.subrange(0, locate_flags@.len() as int) =~= locate_flags@);
    }
    mask
}

/// The offset and whence code the engine's seek call is given for one
/// requested position.
pub fn seek_args(pos: SeekFrom) -> (r: (i64, i32))
    requires
        pos matches SeekFrom::Start(p) ==> p <= 0x7fff_ffff_ffff_ffff,
    ensures
        match pos {
            SeekFrom::Start(p) => r == (p as i64, SEEK_SET),
            SeekFrom::End(o) => r == (o, SEEK_END),
            SeekFrom::Current(o) => r == (o, SEEK_CUR),
        },
{
    match pos {
        SeekFrom::Start(p) => (p as i64, SEEK_SET),
        SeekFrom::End(o) => (o, SEEK_END),
        SeekFrom::Current(o) => (o, SEEK_CUR),
    }
}

/// An open entry presented as a sequential, seekable byte stream.  It borrows
/// its parent archive for its entire life, so the archive cannot be finalized
/// or otherwise used while the entry stays open.
#[derive(Debug)]
pub struct File<'a> {
    handle: usize,
    parent: PhantomData<&'a Archive>,
}

impl<'a> File<'a> {
    /// The raw open-entry handle; null exactly once the entry is closed.
    pub closed spec fn raw(self) -> usize {
        self.handle
    }

    /// Whether the entry is still open.
    pub open spec fn is_open_entry(self) -> bool {
        self.raw() != 0
    }

    /// Wrap the open-entry handle a successful engine call returned.
    pub(crate) fn attach(handle: usize) -> (f: File<'a>)
        requires
            handle != 0,
        ensures
            f.raw() == handle,
            f.is_open_entry(),
    {
        File { handle, parent: PhantomData }
    }

    /// The handle the engine's entry-close call must be given; nothing once
    /// the entry is already closed, when closing again is a no-op and the
    /// engine must not be called a second time.
    pub fn close_target(&self) -> (t: Option<usize>)
        ensures
            t == if self.is_open_entry() { Some(self.raw()) } else { None::<usize> },
    {
        if self.handle == 0 {
            None
        } else {
            Some(self.handle)
        }
    }

    /// Settle the engine's entry-close answer: zero commits quietly, any
    /// other status yields the translated error.  The entry is closed either
    /// way — a failed close still consumes it, there is no retry path.
    pub fn close(&mut self, status: i32, error: Error) -> (r: Result<(), Error>)
        requires
            old(self).is_open_entry(),
        ensures
            !final(self).is_open_entry(),
            status == 0 ==> r is Ok,
            status != 0 ==> r === Err(error),
    {
        self.handle = 0;
        if status == 0 {
            Ok(())
        } else {
            Err(error)
        }
    }

    /// Settle an engine read: `count` is what the engine's read call returned
    /// after being asked for at most `buf_len` bytes.  The negative sentinel
    /// yields the translated error; anything else is the number of bytes
    /// placed, zero signalling end of stream rather than an error.
    pub fn read(&mut self, buf_len: usize, count: i64, error: Error) -> (r: Result<usize, Error>)
        requires
            old(self).is_open_entry(),
            -1 <= count,
            count <= buf_len as i64,
        ensures
            *final(self) == *old(self),
            count == -1 ==> r === Err(error),
            count >= 0 ==> r === Ok(count as usize),
    {
        if count == -1 {
            Err(error)
        } else {
            Ok(count as usize)
        }
    }

    /// Settle an engine seek: the failure sentinel yields the translated
    /// error; on success the new absolute position is `told`, the answer of
    /// the follow-up position query, assumed to succeed once the seek did.
    pub fn seek(&mut self, status: i32, told: i64, error: Error) -> (r: Result<u64, Error>)
        requires
            old(self).is_open_entry(),
            status != -1 ==> told >= 0,
        ensures
            *final(self) == *old(self),
            status == -1 ==> r === Err(error),
            status != -1 ==> r === Ok(told as u64),
    {
        if status == -1 {
            Err(error)
        } else {
            Ok(told as u64)
        }
    }

    /// End the entry's life without observing errors: yields the handle the
    /// engine's entry-close call must be given on a best-effort basis, or
    /// nothing if the entry was already closed.  The close answer is
    /// discarded by design on this implicit path; callers that need to see it
    /// must call `close` explicitly.
    pub fn release(&mut self) -> (t: Option<usize>)
        ensures
            t == if old(self).is_open_entry() { Some(old(self).raw()) } else { None::<usize> },
            !final(self).is_open_entry(),
    {
        let h = self.handle;
        self.handle = 0;
        if h == 0 {
            None
        } else {
            Some(h)
        }
    }
}

} // verus!

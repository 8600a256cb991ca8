//! Error translation: raw two-level native error codes become structured,
//! owned `Error` values.
//!
//! The native engine reports failures through an error record holding a
//! library-specific code, an optional system-level sub-code with an origin
//! tag, and a rendered message.  `ZipErrorT` is the owned snapshot of such a
//! record; `system` and `zip` map its raw codes into the closed enumerations
//! below, and `to_error` fixes the whole record as an immutable `Error`.

use vstd::prelude::*;

verus! {

/// Raw library error codes of the native engine's public header.
pub const ZIP_ER_OK: i32 = 0;
pub const ZIP_ER_MULTIDISK: i32 = 1;
pub const ZIP_ER_RENAME: i32 = 2;
pub const ZIP_ER_CLOSE: i32 = 3;
pub const ZIP_ER_SEEK: i32 = 4;
pub const ZIP_ER_READ: i32 = 5;
pub const ZIP_ER_WRITE: i32 = 6;
pub const ZIP_ER_CRC: i32 = 7;
pub const ZIP_ER_ZIPCLOSED: i32 = 8;
pub const ZIP_ER_NOENT: i32 = 9;
pub const ZIP_ER_EXISTS: i32 = 10;
pub const ZIP_ER_OPEN: i32 = 11;
pub const ZIP_ER_TMPOPEN: i32 = 12;
pub const ZIP_ER_ZLIB: i32 = 13;
pub const ZIP_ER_MEMORY: i32 = 14;
pub const ZIP_ER_CHANGED: i32 = 15;
pub const ZIP_ER_COMPNOTSUPP: i32 = 16;
pub const ZIP_ER_EOF: i32 = 17;
pub const ZIP_ER_INVAL: i32 = 18;
pub const ZIP_ER_NOZIP: i32 = 19;
pub const ZIP_ER_INTERNAL: i32 = 20;
pub const ZIP_ER_INCONS: i32 = 21;
pub const ZIP_ER_REMOVE: i32 = 22;
pub const ZIP_ER_DELETED: i32 = 23;
pub const ZIP_ER_ENCRNOTSUPP: i32 = 24;
pub const ZIP_ER_RDONLY: i32 = 25;
pub const ZIP_ER_NOPASSWD: i32 = 26;
pub const ZIP_ER_WRONGPASSWD: i32 = 27;
pub const ZIP_ER_OPNOTSUPP: i32 = 28;
pub const ZIP_ER_INUSE: i32 = 29;
pub const ZIP_ER_TELL: i32 = 30;
pub const ZIP_ER_COMPRESSED_DATA: i32 = 31;

/// Raw origin tags for the system-level sub-code.
pub const ZIP_ET_NONE: i32 = 0;
pub const ZIP_ET_SYS: i32 = 1;
pub const ZIP_ET_ZLIB: i32 = 2;

/// Origin of the optional system-level sub-code of an error record.
#[derive(Debug, Copy, Clone, PartialEq, Eq, PartialOrd, Ord, Hash)]
pub enum System {
    Sys(i32),
    Zlib(i32),
    Unknown(i32),
}

/// The closed enumeration of library error conditions.  Every raw code the
/// engine can report maps onto exactly one variant; codes outside the
/// documented set map to `Unknown`.
#[derive(Debug, Copy, Clone, PartialEq, Eq, PartialOrd, Ord, Hash)]
pub enum Zip {
    Changed,
    Close,
    CompressionNotSupported,
    CompressedDataInvalid,
    Crc,
    Deleted,
    EncryptionNotSupported,
    Eof,
    Exists,
    Inconsistent,
    Internal,
    InUse,
    InvalidArgument,
    Memory,
    Multidisk,
    NoSuchFile,
    NoPassword,
    NotZip,
    Open,
    OperationNotSupported,
    ReadOnly,
    Read,
    Remove,
    Rename,
    Seek,
    Tell,
    TempFile,
    Write,
    WrongPassword,
    ZipClosed,
    Zlib,
    Unknown,
}

/// An owned, structured error: the library code, the optional system
/// sub-code, and the message rendered at the moment of capture.
#[derive(Debug, Clone)]
pub struct Error {
    pub system: Option<System>,
    pub zip: Option<Zip>,
    pub message: String,
}

/// The raw codes the documented set consists of: every code in it has a named
/// variant of its own.
pub open spec fn documented_code(code: i32) -> bool {
    ZIP_ER_MULTIDISK <= code <= ZIP_ER_COMPRESSED_DATA
}

/// What each raw library code means: the "no error" code maps to `None`,
/// each documented code to its named variant, and everything else to
/// `Some(Zip::Unknown)`.
pub open spec fn zip_of_code(code: i32) -> Option<Zip> {
    if code == ZIP_ER_OK {
        None
    } else if code == ZIP_ER_CHANGED {
        Some(Zip::Changed)
    } else if code == ZIP_ER_CLOSE {
        Some(Zip::Close)
    } else if code == ZIP_ER_COMPNOTSUPP {
        Some(Zip::CompressionNotSupported)
    } else if code == ZIP_ER_COMPRESSED_DATA {
        Some(Zip::CompressedDataInvalid)
    } else if code == ZIP_ER_CRC {
        Some(Zip::Crc)
    } else if code == ZIP_ER_DELETED {
        Some(Zip::Deleted)
    } else if code == ZIP_ER_ENCRNOTSUPP {
        Some(Zip::EncryptionNotSupported)
    } else if code == ZIP_ER_EOF {
        Some(Zip::Eof)
    } else if code == ZIP_ER_EXISTS {
        Some(Zip::Exists)
    } else if code == ZIP_ER_INCONS {
        Some(Zip::Inconsistent)
    } else if code == ZIP_ER_INTERNAL {
        Some(Zip::Internal)
    } else if code == ZIP_ER_INUSE {
        Some(Zip::InUse)
    } else if code == ZIP_ER_INVAL {
        Some(Zip::InvalidArgument)
    } else if code == ZIP_ER_MEMORY {
        Some(Zip::Memory)
    } else if code == ZIP_ER_MULTIDISK {
        Some(Zip::Multidisk)
    } else if code == ZIP_ER_NOENT {
        Some(Zip::NoSuchFile)
    } else if code == ZIP_ER_NOPASSWD {
        Some(Zip::NoPassword)
    } else if code == ZIP_ER_NOZIP {
        Some(Zip::NotZip)
    } else if code == ZIP_ER_OPEN {
        Some(Zip::Open)
    } else if code == ZIP_ER_OPNOTSUPP {
        Some(Zip::OperationNotSupported)
    } else if code == ZIP_ER_RDONLY {
        Some(Zip::ReadOnly)
    } else if code == ZIP_ER_READ {
        Some(Zip::Read)
    } else if code == ZIP_ER_REMOVE {
        Some(Zip::Remove)
    } else if code == ZIP_ER_RENAME {
        Some(Zip::Rename)
    } else if code == ZIP_ER_SEEK {
        Some(Zip::Seek)
    } else if code == ZIP_ER_TELL {
        Some(Zip::Tell)
    } else if code == ZIP_ER_TMPOPEN {
        Some(Zip::TempFile)
    } else if code == ZIP_ER_WRITE {
        Some(Zip::Write)
    } else if code == ZIP_ER_WRONGPASSWD {
        Some(Zip::WrongPassword)
    } else if code == ZIP_ER_ZIPCLOSED {
        Some(Zip::ZipClosed)
    } else if code == ZIP_ER_ZLIB {
        Some(Zip::Zlib)
    } else {
        Some(Zip::Unknown)
    }
}

/// What an origin tag and sub-code pair means: no tag, no sub-code; the two
/// documented tags name their origin; any other tag is of unknown origin.
pub open spec fn system_of(sys_type: i32, sys_code: i32) -> Option<System> {
    if sys_type == ZIP_ET_NONE {
        None
    } else if sys_type == ZIP_ET_SYS {
        Some(System::Sys(sys_code))
    } else if sys_type == ZIP_ET_ZLIB {
        Some(System::Zlib(sys_code))
    } else {
        Some(System::Unknown(sys_code))
    }
}

/// The mapping of raw library codes is total and stable: the "no error" code
/// alone maps to the absence of an error, every other code maps to some
/// variant, each documented code to a named variant, and only codes outside
/// the documented set to `Unknown`.
pub proof fn lemma_zip_mapping_total(code: i32)
    ensures
        zip_of_code(ZIP_ER_OK) is None,
        code != ZIP_ER_OK ==> zip_of_code(code) is Some,
        documented_code(code) ==> zip_of_code(code) != Some(Zip::Unknown),
        code != ZIP_ER_OK && !documented_code(code) ==> zip_of_code(code) == Some(Zip::Unknown),
{
}

/// The mapping of origin tags is total: the "none" tag alone maps to the
/// absence of a sub-code, and every sub-code survives the mapping unchanged.
pub proof fn lemma_system_mapping_total(sys_type: i32, sys_code: i32)
    ensures
        system_of(ZIP_ET_NONE, sys_code) is None,
        sys_type != ZIP_ET_NONE ==> (system_of(sys_type, sys_code) matches Some(s) && (match s {
            System::Sys(c) => c == sys_code,
            System::Zlib(c) => c == sys_code,
            System::Unknown(c) => c == sys_code,
        })),
{
}

/// An owned snapshot of a native error record: the two raw codes with the
/// origin tag, the rendered message, and whether this record still owes the
/// engine one release of its transient native storage.  A record snapshot
/// taken from a live handle's own persistent error state owes nothing
/// (`cleanup` false); a freshly constructed out-parameter record owes exactly
/// one release (`cleanup` true), handed out by `fini`.
#[derive(Debug, Clone)]
pub struct ZipErrorT {
    pub zip_code: i32,
    pub sys_type: i32,
    pub sys_code: i32,
    pub message: String,
    pub cleanup: bool,
}

impl Default for ZipErrorT {
    /// A fresh, zero-initialized transient record, as the engine's error
    /// initializer leaves it: no codes, no message, one release owed.
    fn default() -> (r: ZipErrorT)
        ensures
            r.zip_code == ZIP_ER_OK,
            r.sys_type == ZIP_ET_NONE,
            r.sys_code == 0,
            r.message@ == Seq::<char>::empty(),
            r.cleanup,
    {
        ZipErrorT {
            zip_code: ZIP_ER_OK,
            sys_type: ZIP_ET_NONE,
            sys_code: 0,
            message: String::new(),
            cleanup: true,
        }
    }
}

impl ZipErrorT {
    /// Snapshot of a freshly constructed out-parameter record, filled by a
    /// failed call: its transient native storage must be released exactly
    /// once, so `cleanup` is owed.
    pub fn owned(zip_code: i32, sys_type: i32, sys_code: i32, message: String) -> (r: ZipErrorT)
        ensures
            r.zip_code == zip_code,
            r.sys_type == sys_type,
            r.sys_code == sys_code,
            r.message == message,
            r.cleanup,
    {
        ZipErrorT { zip_code, sys_type, sys_code, message, cleanup: true }
    }

    /// Snapshot of a live handle's own persistent error state: the handle
    /// owns that state, so this record must never release anything.
    pub fn borrowed(zip_code: i32, sys_type: i32, sys_code: i32, message: String) -> (r: ZipErrorT)
        ensures
            r.zip_code == zip_code,
            r.sys_type == sys_type,
            r.sys_code == sys_code,
            r.message == message,
            !r.cleanup,
    {
        ZipErrorT { zip_code, sys_type, sys_code, message, cleanup: false }
    }

    /// The nested system sub-code, if the origin tag names one.
    pub fn system(&self) -> (r: Option<System>)
        ensures
            r == system_of(self.sys_type, self.sys_code),
    {
        if self.sys_type == ZIP_ET_NONE {
            None
        } else if self.sys_type == ZIP_ET_SYS {
            Some(System::Sys(self.sys_code))
        } else if self.sys_type == ZIP_ET_ZLIB {
            Some(System::Zlib(self.sys_code))
        } else {
            Some(System::Unknown(self.sys_code))
        }
    }

    /// The library code mapped into the closed enumeration; `None` for the
    /// "no error" code.
    pub fn zip(&self) -> (r: Option<Zip>)
        ensures
            r == zip_of_code(self.zip_code),
    {
        if self.zip_code == ZIP_ER_OK {
            None
        } else if self.zip_code == ZIP_ER_CHANGED {
            Some(Zip::Changed)
        } else if self.zip_code == ZIP_ER_CLOSE {
            Some(Zip::Close)
        } else if self.zip_code == ZIP_ER_COMPNOTSUPP {
            Some(Zip::CompressionNotSupported)
        } else if self.zip_code == ZIP_ER_COMPRESSED_DATA {
            Some(Zip::CompressedDataInvalid)
        } else if self.zip_code == ZIP_ER_CRC {
            Some(Zip::Crc)
        } else if self.zip_code == ZIP_ER_DELETED {
            Some(Zip::Deleted)
        } else if self.zip_code == ZIP_ER_ENCRNOTSUPP {
            Some(Zip::EncryptionNotSupported)
        } else if self.zip_code == ZIP_ER_EOF {
            Some(Zip::Eof)
        } else if self.zip_code == ZIP_ER_EXISTS {
            Some(Zip::Exists)
        } else if self.zip_code == ZIP_ER_INCONS {
            Some(Zip::Inconsistent)
        } else if self.zip_code == ZIP_ER_INTERNAL {
            Some(Zip::Internal)
        } else if self.zip_code == ZIP_ER_INUSE {
            Some(Zip::InUse)
        } else if self.zip_code == ZIP_ER_INVAL {
            Some(Zip::InvalidArgument)
        } else if self.zip_code == ZIP_ER_MEMORY {
            Some(Zip::Memory)
        } else if self.zip_code == ZIP_ER_MULTIDISK {
            Some(Zip::Multidisk)
        } else if self.zip_code == ZIP_ER_NOENT {
            Some(Zip::NoSuchFile)
        } else if self.zip_code == ZIP_ER_NOPASSWD {
            Some(Zip::NoPassword)
        } else if self.zip_code == ZIP_ER_NOZIP {
            Some(Zip::NotZip)
        } else if self.zip_code == ZIP_ER_OPEN {
            Some(Zip::Open)
        } else if self.zip_code == ZIP_ER_OPNOTSUPP {
            Some(Zip::OperationNotSupported)
        } else if self.zip_code == ZIP_ER_RDONLY {
            Some(Zip::ReadOnly)
        } else if self.zip_code == ZIP_ER_READ {
            Some(Zip::Read)
        } else if self.zip_code == ZIP_ER_REMOVE {
            Some(Zip::Remove)
        } else if self.zip_code == ZIP_ER_RENAME {
            Some(Zip::Rename)
        } else if self.zip_code == ZIP_ER_SEEK {
            Some(Zip::Seek)
        } else if self.zip_code == ZIP_ER_TELL {
            Some(Zip::Tell)
        } else if self.zip_code == ZIP_ER_TMPOPEN {
            Some(Zip::TempFile)
        } else if self.zip_code == ZIP_ER_WRITE {
            Some(Zip::Write)
        } else if self.zip_code == ZIP_ER_WRONGPASSWD {
            Some(Zip::WrongPassword)
        } else if self.zip_code == ZIP_ER_ZIPCLOSED {
            Some(Zip::ZipClosed)
        } else if self.zip_code == ZIP_ER_ZLIB {
            Some(Zip::Zlib)
        } else {
            Some(Zip::Unknown)
        }
    }

    /// The message rendered for this record when it was captured.
    pub fn message(&self) -> (m: &String)
        ensures
            m == &self.message,
    {
        &self.message
    }

    /// Fix this record as an owned, structured `Error`: both codes mapped,
    /// the message copied.  No further native interaction follows from the
    /// returned value.
    pub fn to_error(&self) -> (e: Error)
        ensures
            e.system == system_of(self.sys_type, self.sys_code),
            e.zip == zip_of_code(self.zip_code),
            e.message == self.message,
    {
        Error { system: self.system(), zip: self.zip(), message: self.message.clone() }
    }

    /// Hand out the one release this record owes the engine for its
    /// transient native storage, if any.  The release is owed at most once:
    /// asking again yields `false`, and a record borrowed from a handle's own
    /// error state never owes one.
    pub fn fini(&mut self) -> (owed: bool)
        ensures
            owed == old(self).cleanup,
            !final(self).cleanup,
            final(self).zip_code == old(self).zip_code,
            final(self).sys_type == old(self).sys_type,
            final(self).sys_code == old(self).sys_code,
            final(self).message == old(self).message,
    {
        let owed = self.cleanup;
        self.cleanup = false;
        owed
    }
}

} // verus!

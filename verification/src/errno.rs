//! Errors that an operation hands back to the guest.

use vstd::prelude::*;

verus! {

/// Bad file descriptor.
pub const EBADF: i32 = 9;

/// Permission denied.
pub const EACCES: i32 = 13;

/// File exists.
pub const EEXIST: i32 = 17;

/// Invalid argument.
pub const EINVAL: i32 = 22;

/// File too large.
pub const EFBIG: i32 = 27;

/// Result does not fit the buffer.
pub const ERANGE: i32 = 34;

/// Function not implemented.
pub const ENOSYS: i32 = 38;

/// No such attribute.
pub const ENODATA: i32 = 61;

/// Windows: the file was not found.
pub const ERROR_FILE_NOT_FOUND: i32 = 2;

/// Windows: the path was not found.
pub const ERROR_PATH_NOT_FOUND: i32 = 3;

/// Windows: the end of the stream list was reached.
pub const ERROR_HANDLE_EOF: i32 = 38;

/// Why an operation failed.
#[derive(Clone, Copy, Debug, PartialEq, Eq, Structural)]
pub enum FsError {
    /// A numeric code. Before it reaches the guest it goes `translations` times
    /// through the host's table from Windows codes to Linux codes; a code that is
    /// a Linux one from the start has `translations == 0`.
    Os { code: i32, translations: u8 },
    /// An error without a code, under the number that the host has for errors of its
    /// kind. It goes through the table as one with a code does.
    Uncoded { kind: u8, translations: u8 },
    /// The path is a reparse point and is not safe to serve.
    ReparsePoint,
}

/// One pass through the table more; the largest number stands for every larger one.
pub open spec fn one_more(translations: u8) -> u8 {
    if translations < u8::MAX {
        (translations + 1) as u8
    } else {
        u8::MAX
    }
}

fn count_pass(translations: u8) -> (r: u8)
    ensures
        r == one_more(translations),
{
    if translations < u8::MAX {
        translations + 1
    } else {
        u8::MAX
    }
}

impl FsError {
    /// The error for a Linux code.
    pub open spec fn linux(code: i32) -> FsError {
        FsError::Os { code, translations: 0 }
    }

    /// The same error with one more pass through the host's table to come.
    pub open spec fn once_more(self) -> FsError {
        match self {
            FsError::Os { code, translations } => FsError::Os {
                code,
                translations: one_more(translations),
            },
            FsError::Uncoded { kind, translations } => FsError::Uncoded {
                kind,
                translations: one_more(translations),
            },
            FsError::ReparsePoint => FsError::ReparsePoint,
        }
    }

    /// The error for a Linux code.
    pub fn errno(code: i32) -> (e: FsError)
        ensures
            e == FsError::linux(code),
    {
        FsError::Os { code, translations: 0 }
    }

    /// Asks for one more pass through the host's table.
    pub fn translated(self) -> (e: FsError)
        ensures
            e == self.once_more(),
    {
        match self {
            FsError::Os { code, translations } => FsError::Os {
                code,
                translations: count_pass(translations),
            },
            FsError::Uncoded { kind, translations } => FsError::Uncoded {
                kind,
                translations: count_pass(translations),
            },
            FsError::ReparsePoint => FsError::ReparsePoint,
        }
    }

    /// Whether Windows says that a named stream does not exist. Windows treats the
    /// stream as part of the path, so both of its "not found" codes mean that.
    pub open spec fn spec_no_such_stream(self) -> bool {
        self matches FsError::Os { code, .. } && (code == ERROR_FILE_NOT_FOUND || code
            == ERROR_PATH_NOT_FOUND)
    }

    /// What a failed access to the stream of an extended attribute is answered with.
    pub open spec fn for_stream(self) -> FsError {
        if self.spec_no_such_stream() {
            FsError::linux(ENODATA)
        } else {
            self.once_more()
        }
    }

    /// What a failed access to the stream of an extended attribute is answered with:
    /// a missing stream is a missing attribute, not a missing file.
    pub fn stream_error(self) -> (e: FsError)
        ensures
            e == self.for_stream(),
    {
        match self {
            FsError::Os { code, .. } => if code == ERROR_FILE_NOT_FOUND || code
                == ERROR_PATH_NOT_FOUND {
                FsError::errno(ENODATA)
            } else {
                self.translated()
            },
            _ => self.translated(),
        }
    }
}

/// A missing stream is reported as a missing attribute, so the guest never takes it
/// for a missing file; every other failure keeps its code.
pub proof fn law_missing_stream_is_missing_attribute(code: i32)
    ensures
        (FsError::Os { code, translations: 0 }).for_stream() == if code == ERROR_FILE_NOT_FOUND
            || code == ERROR_PATH_NOT_FOUND {
            FsError::linux(ENODATA)
        } else {
            FsError::Os { code, translations: 1 }
        },
{
}

} // verus!

use vstd::prelude::*;
use crate::paths::{label, spec_label, unknown_path};

verus! {

/// Errors as they travel up from an operation: a kind, and where the
/// operation knew it, the label of the path concerned. A kind without a path
/// takes it from the task's source or destination when it is reported.
#[derive(Debug, Clone, PartialEq, Eq)]
pub enum PropErrno {
    Unknown,
    UnknownVal(String),
    NoMem,
    NoStorage,
    PlatformNotSupported,
    TooManyTasks,
    Interrupted,
    InterruptedVal(String),
    PathNotFound,
    PathNotFoundVal(String),
    PathCopy,
    PathCopyVal(String),
    PathNormalize,
    PathNormalizeVal(String),
    ExpectedDir,
    ExpectedDirVal(String),
    ExpectedDstDir,
    ExpectedFile,
    ExpectedFileVal(String),
    ExpectedDstFile,
    Read,
    ReadVal(String),
    ReadDir,
    ReadDirVal(String),
    Write,
    WriteVal(String),
    Copy,
    CopyVal(String, String),
    Move,
    MoveVal(String, String),
    Delete,
    DeleteVal(String),
    Rename,
    RenameVal(String),
    EntityCreation(String),
    Finish,
    FinishVal(String),
    Loop,
    LoopVal(String),
    TimedOut,
    TimedOutVal(String),
    ReadPerm,
    ReadPermVal(String),
    WritePerm,
    WritePermVal(String),
    ReadWritePerm,
    ReadWritePermVal(String),
    SetPerm,
    SetPermVal(String),
    SetMeta,
    SetMetaVal(String),
    GetMeta,
    GetMetaVal(String),
    BrokenSymlink,
    BrokenSymlinkVal(String),
    CorruptedFile,
    CorruptedFileVal(String),
    CorruptedHeaderVal(String),
    Compress,
    CompressVal(String),
    Decompress,
    DecompressVal(String),
    Unpack,
    UnpackVal(String),
    UnpackOutofDir,
    UnpackOutofDirVal(String),
    Encrypt,
    EncryptVal(String),
    Decrypt,
    DecryptVal(String),
    PasswordLength(u8, u8),
    PasswordLengthVal(String, u8, u8),
    InvalidPassword,
    PasswordInterpolation,
    PasswordInterpolationVal(String),
    InvalidPasswordVal(String),
    InvalidPassOrCorrupt,
    InvalidPassOrCorruptVal(String),
}

/// Whether reporting the kind takes the task's source path.
pub open spec fn uses_src(e: PropErrno) -> bool {
    match e {
        PropErrno::Interrupted => true,
        PropErrno::PathNotFound => true,
        PropErrno::PathCopy => true,
        PropErrno::PathNormalize => true,
        PropErrno::ExpectedDir => true,
        PropErrno::ExpectedFile => true,
        PropErrno::Read => true,
        PropErrno::ReadDir => true,
        PropErrno::Copy => true,
        PropErrno::Move => true,
        PropErrno::Delete => true,
        PropErrno::Rename => true,
        PropErrno::Loop => true,
        PropErrno::ReadPerm => true,
        PropErrno::ReadWritePerm => true,
        PropErrno::GetMeta => true,
        PropErrno::BrokenSymlink => true,
        PropErrno::CorruptedFile => true,
        PropErrno::CorruptedHeaderVal(..) => true,
        PropErrno::Compress => true,
        PropErrno::Decompress => true,
        PropErrno::Unpack => true,
        PropErrno::UnpackOutofDir => true,
        PropErrno::Encrypt => true,
        PropErrno::Decrypt => true,
        PropErrno::PasswordLength(..) => true,
        PropErrno::InvalidPassword => true,
        PropErrno::PasswordInterpolation => true,
        PropErrno::InvalidPassOrCorrupt => true,
        _ => false,
    }
}

/// Whether reporting the kind takes the task's destination path.
pub open spec fn uses_dst(e: PropErrno) -> bool {
    match e {
        PropErrno::ExpectedDstDir => true,
        PropErrno::ExpectedDstFile => true,
        PropErrno::Write => true,
        PropErrno::Copy => true,
        PropErrno::Move => true,
        PropErrno::Finish => true,
        PropErrno::WritePerm => true,
        PropErrno::SetPerm => true,
        PropErrno::SetMeta => true,
        _ => false,
    }
}

/// The kinds of I/O failure that errors are told apart by.
#[derive(Debug, Clone, Copy, PartialEq, Eq, Structural)]
pub enum IoErrorKind {
    InvalidData,
    NotFound,
    PermissionDenied,
    AlreadyExists,
    WriteZero,
    Interrupted,
    Unsupported,
    WouldBlock,
    TimedOut,
    UnexpectedEof,
    OutOfMemory,
    Other,
}

pub open spec fn opt_view(p: Option<&str>) -> Option<Seq<char>> {
    match p {
        Some(s) => Some(s@),
        None => None,
    }
}

/// The error for an I/O failure of `kind` on `path` (by its label, where the
/// path is known).
pub open spec fn io_errno_matches(kind: IoErrorKind, path: Option<Seq<char>>, r: PropErrno) -> bool {
    match kind {
        IoErrorKind::InvalidData | IoErrorKind::UnexpectedEof => match path {
            Some(p) => (r matches PropErrno::CorruptedFileVal(s) && s@ == spec_label(p)),
            None => r matches PropErrno::CorruptedFile,
        },
        IoErrorKind::NotFound => match path {
            Some(p) => (r matches PropErrno::PathNotFoundVal(s) && s@ == spec_label(p)),
            None => r matches PropErrno::PathNotFound,
        },
        IoErrorKind::PermissionDenied => match path {
            Some(p) => (r matches PropErrno::ReadPermVal(s) && s@ == spec_label(p)),
            None => r matches PropErrno::ReadPerm,
        },
        IoErrorKind::AlreadyExists => match path {
            Some(p) => (r matches PropErrno::EntityCreation(s) && s@ == spec_label(p)),
            None => (r matches PropErrno::EntityCreation(s) && s@ == "[unknown_path]"@),
        },
        IoErrorKind::WriteZero => r matches PropErrno::Write,
        IoErrorKind::Interrupted | IoErrorKind::WouldBlock => r matches PropErrno::Interrupted,
        IoErrorKind::Unsupported => r matches PropErrno::PlatformNotSupported,
        IoErrorKind::TimedOut => match path {
            Some(p) => (r matches PropErrno::TimedOutVal(s) && s@ == spec_label(p)),
            None => r matches PropErrno::TimedOut,
        },
        IoErrorKind::OutOfMemory => r matches PropErrno::NoMem,
        IoErrorKind::Other => match path {
            Some(p) => (r matches PropErrno::UnknownVal(s) && s@ == spec_label(p)),
            None => r matches PropErrno::Unknown,
        },
    }
}

impl PropErrno {
    /// The error for an I/O failure of `kind`, labelled with `path` where one
    /// is given.
    pub fn from_io_error(kind: IoErrorKind, path: Option<&str>) -> (r: PropErrno)
        ensures
            io_errno_matches(kind, opt_view(path), r),
    {
        match kind {
            IoErrorKind::InvalidData | IoErrorKind::UnexpectedEof => match path {
                Some(p) => PropErrno::CorruptedFileVal(label(p)),
                None => PropErrno::CorruptedFile,
            },
            IoErrorKind::NotFound => match path {
                Some(p) => PropErrno::PathNotFoundVal(label(p)),
                None => PropErrno::PathNotFound,
            },
            IoErrorKind::PermissionDenied => match path {
                Some(p) => PropErrno::ReadPermVal(label(p)),
                None => PropErrno::ReadPerm,
            },
            IoErrorKind::AlreadyExists => match path {
                Some(p) => PropErrno::EntityCreation(label(p)),
                None => PropErrno::EntityCreation(unknown_path()),
            },
            IoErrorKind::WriteZero => PropErrno::Write,
            IoErrorKind::Interrupted | IoErrorKind::WouldBlock => PropErrno::Interrupted,
            IoErrorKind::Unsupported => PropErrno::PlatformNotSupported,
            IoErrorKind::TimedOut => match path {
                Some(p) => PropErrno::TimedOutVal(label(p)),
                None => PropErrno::TimedOut,
            },
            IoErrorKind::OutOfMemory => PropErrno::NoMem,
            IoErrorKind::Other => match path {
                Some(p) => PropErrno::UnknownVal(label(p)),
                None => PropErrno::Unknown,
            },
        }
    }

    /// The error for a failed step of a directory walk: a loop back to an
    /// ancestor is reported with the ancestor's label; otherwise the I/O
    /// failure is mapped as for any operation.
    pub fn from_walk_error(loop_ancestor: Option<&str>, kind: Option<IoErrorKind>, path: Option<&str>) -> (r: PropErrno)
        ensures
            match loop_ancestor {
                Some(a) => (r matches PropErrno::LoopVal(s) && s@ == spec_label(a@)),
                None => match kind {
                    Some(k) => io_errno_matches(k, opt_view(path), r),
                    None => r matches PropErrno::Unknown,
                },
            },
    {
        match loop_ancestor {
            Some(a) => PropErrno::LoopVal(label(a)),
            None => match kind {
                Some(k) => PropErrno::from_io_error(k, path),
                None => PropErrno::Unknown,
            },
        }
    }
}

impl Default for PropErrno {
    fn default() -> (r: PropErrno)
        ensures
            r matches PropErrno::Unknown,
    {
        PropErrno::Unknown
    }
}

pub open spec fn opt_string_view(s: Option<String>) -> Option<Seq<char>> {
    match s {
        Some(v) => Some(v@),
        None => None,
    }
}

/// A label, or the unknown-location label where there is none.
pub open spec fn or_unknown(s: Option<Seq<char>>) -> Seq<char> {
    match s {
        Some(v) => v,
        None => "[unknown_path]"@,
    }
}

/// The source and destination labels of the task an error came from.
#[derive(Debug, Clone, PartialEq, Eq)]
pub struct PropErrnoParams {
    src: Option<String>,
    dst: Option<String>,
}

impl Default for PropErrnoParams {
    fn default() -> (r: PropErrnoParams)
        ensures
            r.spec_src() is None,
            r.spec_dst() is None,
    {
        PropErrnoParams { src: None, dst: None }
    }
}

impl PropErrnoParams {
    pub closed spec fn spec_src(&self) -> Option<Seq<char>> {
        opt_string_view(self.src)
    }

    pub closed spec fn spec_dst(&self) -> Option<Seq<char>> {
        opt_string_view(self.dst)
    }

    pub fn new() -> (r: PropErrnoParams)
        ensures
            r.spec_src() is None,
            r.spec_dst() is None,
    {
        PropErrnoParams { src: None, dst: None }
    }

    pub fn new_with_src_and_dst(src: String, dst: String) -> (r: PropErrnoParams)
        ensures
            r.spec_src() == Some(src@),
            r.spec_dst() == Some(dst@),
    {
        PropErrnoParams { src: Some(src), dst: Some(dst) }
    }

    pub fn set_src(&mut self, src: String) -> (r: &mut PropErrnoParams)
        ensures
            r.spec_src() == Some(src@),
            r.spec_dst() == old(self).spec_dst(),
            *final(self) == *final(r),
    {
        self.src = Some(src);
        self
    }

    pub fn set_dst(&mut self, dst: String) -> (r: &mut PropErrnoParams)
        ensures
            r.spec_dst() == Some(dst@),
            r.spec_src() == old(self).spec_src(),
            *final(self) == *final(r),
    {
        self.dst = Some(dst);
        self
    }

    pub fn set_opt_dst(&mut self, dst: Option<String>) -> (r: &mut PropErrnoParams)
        ensures
            r.spec_dst() == opt_string_view(dst),
            r.spec_src() == old(self).spec_src(),
            *final(self) == *final(r),
    {
        self.dst = dst;
        self
    }

    /// Takes the source label out, or gives the unknown-location label.
    pub fn src(&mut self) -> (r: String)
        ensures
            r@ == or_unknown(old(self).spec_src()),
            final(self).spec_src() is None,
            final(self).spec_dst() == old(self).spec_dst(),
    {
        match self.src.take() {
            Some(s) => s,
            None => unknown_path(),
        }
    }

    /// Takes the destination label out, or gives the unknown-location label.
    pub fn dst(&mut self) -> (r: String)
        ensures
            r@ == or_unknown(old(self).spec_dst()),
            final(self).spec_dst() is None,
            final(self).spec_src() == old(self).spec_src(),
    {
        match self.dst.take() {
            Some(s) => s,
            None => unknown_path(),
        }
    }
}

} // verus!

use vstd::prelude::*;
use vstd::string::*;
use crate::errors::{or_unknown, uses_dst, uses_src, PropErrno, PropErrnoParams};

verus! {

/// The parameters that a user-visible error carries.
#[derive(Debug, Clone, PartialEq, Eq)]
pub enum ErrnoParams {
    Empty,
    Base(String),
    FromTo(String, String),
    BaseAndPath(String, String),
    PasswordLength(String, u8, u8),
}

/// The parameters of an error, as text.
pub enum ErrnoParamsView {
    Empty,
    Base(Seq<char>),
    FromTo(Seq<char>, Seq<char>),
    BaseAndPath(Seq<char>, Seq<char>),
    PasswordLength(Seq<char>, u8, u8),
}

impl ErrnoParams {
    pub open spec fn view(&self) -> ErrnoParamsView {
        match self {
            ErrnoParams::Empty => ErrnoParamsView::Empty,
            ErrnoParams::Base(b) => ErrnoParamsView::Base(b@),
            ErrnoParams::FromTo(f, t) => ErrnoParamsView::FromTo(f@, t@),
            ErrnoParams::BaseAndPath(b, p) => ErrnoParamsView::BaseAndPath(b@, p@),
            ErrnoParams::PasswordLength(b, lo, hi) => ErrnoParamsView::PasswordLength(b@, *lo, *hi),
        }
    }
}

/// A user-visible error, as text.
pub struct ErrnoView {
    pub code: Seq<char>,
    pub fixable: bool,
    pub params: ErrnoParamsView,
}

/// A user-visible error: a code the interface translates, whether the user
/// can put it right, and its parameters.
#[derive(Debug, Clone, PartialEq, Eq)]
pub struct Errno {
    code: String,
    fixable: bool,
    params: ErrnoParams,
}

/// The user-visible error that an error kind is reported as, with the task's
/// source and destination labels for the kinds that carry no path.
pub open spec fn spec_errno_of(e: PropErrno, src: Seq<char>, dst: Seq<char>) -> ErrnoView {
    match e {
        PropErrno::Unknown => ErrnoView { code: "unknown_err"@, fixable: false, params: ErrnoParamsView::Empty },
        PropErrno::UnknownVal(v0) => ErrnoView { code: "unknown_err"@, fixable: false, params: ErrnoParamsView::Empty },
        PropErrno::NoMem => ErrnoView { code: "mem_err"@, fixable: false, params: ErrnoParamsView::Empty },
        PropErrno::NoStorage => ErrnoView { code: "store_err"@, fixable: false, params: ErrnoParamsView::Empty },
        PropErrno::PlatformNotSupported => ErrnoView { code: "unsupported_platform_err"@, fixable: false, params: ErrnoParamsView::Empty },
        PropErrno::TooManyTasks => ErrnoView { code: "too_many_tasks_err"@, fixable: false, params: ErrnoParamsView::Empty },
        PropErrno::Interrupted => ErrnoView { code: "interrupted_err"@, fixable: false, params: ErrnoParamsView::Base(src) },
        PropErrno::InterruptedVal(v0) => ErrnoView { code: "interrupted_err"@, fixable: false, params: ErrnoParamsView::Base(v0@) },
        PropErrno::PathNotFound => ErrnoView { code: "path_not_found_err"@, fixable: true, params: ErrnoParamsView::Base(src) },
        PropErrno::PathNotFoundVal(v0) => ErrnoView { code: "path_not_found_err"@, fixable: true, params: ErrnoParamsView::Base(v0@) },
        PropErrno::PathCopy => ErrnoView { code: "path_copy_err"@, fixable: false, params: ErrnoParamsView::Base(src) },
        PropErrno::PathCopyVal(v0) => ErrnoView { code: "path_copy_err"@, fixable: false, params: ErrnoParamsView::Base(v0@) },
        PropErrno::PathNormalize => ErrnoView { code: "path_normalize_err"@, fixable: false, params: ErrnoParamsView::Base(src) },
        PropErrno::PathNormalizeVal(v0) => ErrnoView { code: "path_normalize_err"@, fixable: false, params: ErrnoParamsView::Base(v0@) },
        PropErrno::ExpectedDir => ErrnoView { code: "expected_dir_err"@, fixable: true, params: ErrnoParamsView::Base(src) },
        PropErrno::ExpectedDirVal(v0) => ErrnoView { code: "expected_dir_err"@, fixable: true, params: ErrnoParamsView::Base(v0@) },
        PropErrno::ExpectedDstDir => ErrnoView { code: "expected_dir_err"@, fixable: true, params: ErrnoParamsView::Base(dst) },
        PropErrno::ExpectedFile => ErrnoView { code: "expected_file_err"@, fixable: true, params: ErrnoParamsView::Base(src) },
        PropErrno::ExpectedFileVal(v0) => ErrnoView { code: "expected_file_err"@, fixable: true, params: ErrnoParamsView::Base(v0@) },
        PropErrno::ExpectedDstFile => ErrnoView { code: "expected_file_err"@, fixable: true, params: ErrnoParamsView::Base(dst) },
        PropErrno::Read => ErrnoView { code: "read_err"@, fixable: false, params: ErrnoParamsView::Base(src) },
        PropErrno::ReadVal(v0) => ErrnoView { code: "read_err"@, fixable: false, params: ErrnoParamsView::Base(v0@) },
        PropErrno::ReadDir => ErrnoView { code: "read_dir_err"@, fixable: false, params: ErrnoParamsView::Base(src) },
        PropErrno::ReadDirVal(v0) => ErrnoView { code: "read_dir_err"@, fixable: false, params: ErrnoParamsView::Base(v0@) },
        PropErrno::Write => ErrnoView { code: "write_err"@, fixable: false, params: ErrnoParamsView::Base(dst) },
        PropErrno::WriteVal(v0) => ErrnoView { code: "write_err"@, fixable: false, params: ErrnoParamsView::Base(v0@) },
        PropErrno::Copy => ErrnoView { code: "copy_err"@, fixable: false, params: ErrnoParamsView::FromTo(src, dst) },
        PropErrno::CopyVal(v0, v1) => ErrnoView { code: "copy_err"@, fixable: false, params: ErrnoParamsView::FromTo(v0@, v1@) },
        PropErrno::Move => ErrnoView { code: "cut_err"@, fixable: false, params: ErrnoParamsView::FromTo(src, dst) },
        PropErrno::MoveVal(v0, v1) => ErrnoView { code: "cut_err"@, fixable: false, params: ErrnoParamsView::FromTo(v0@, v1@) },
        PropErrno::Delete => ErrnoView { code: "delete_err"@, fixable: false, params: ErrnoParamsView::Base(src) },
        PropErrno::DeleteVal(v0) => ErrnoView { code: "delete_err"@, fixable: false, params: ErrnoParamsView::Base(v0@) },
        PropErrno::Rename => ErrnoView { code: "rename_err"@, fixable: false, params: ErrnoParamsView::Base(src) },
        PropErrno::RenameVal(v0) => ErrnoView { code: "rename_err"@, fixable: false, params: ErrnoParamsView::Base(v0@) },
        PropErrno::EntityCreation(v0) => ErrnoView { code: "entity_create_err"@, fixable: false, params: ErrnoParamsView::Base(v0@) },
        PropErrno::Finish => ErrnoView { code: "finish_err"@, fixable: false, params: ErrnoParamsView::Base(dst) },
        PropErrno::FinishVal(v0) => ErrnoView { code: "finish_err"@, fixable: false, params: ErrnoParamsView::Base(v0@) },
        PropErrno::Loop => ErrnoView { code: "loop_err"@, fixable: false, params: ErrnoParamsView::Base(src) },
        PropErrno::LoopVal(v0) => ErrnoView { code: "loop_err"@, fixable: false, params: ErrnoParamsView::Base(v0@) },
        PropErrno::TimedOut => ErrnoView { code: "unknown_err"@, fixable: false, params: ErrnoParamsView::Empty },
        PropErrno::TimedOutVal(v0) => ErrnoView { code: "unknown_err"@, fixable: false, params: ErrnoParamsView::Empty },
        PropErrno::ReadPerm => ErrnoView { code: "read_perm_err"@, fixable: false, params: ErrnoParamsView::Base(src) },
        PropErrno::ReadPermVal(v0) => ErrnoView { code: "read_perm_err"@, fixable: false, params: ErrnoParamsView::Base(v0@) },
        PropErrno::WritePerm => ErrnoView { code: "write_perm_err"@, fixable: false, params: ErrnoParamsView::Base(dst) },
        PropErrno::WritePermVal(v0) => ErrnoView { code: "write_perm_err"@, fixable: false, params: ErrnoParamsView::Base(v0@) },
        PropErrno::ReadWritePerm => ErrnoView { code: "read_write_perm_err"@, fixable: false, params: ErrnoParamsView::Base(src) },
        PropErrno::ReadWritePermVal(v0) => ErrnoView { code: "read_write_perm_err"@, fixable: false, params: ErrnoParamsView::Base(v0@) },
        PropErrno::SetPerm => ErrnoView { code: "perm_set_err"@, fixable: false, params: ErrnoParamsView::Base(dst) },
        PropErrno::SetPermVal(v0) => ErrnoView { code: "perm_set_err"@, fixable: false, params: ErrnoParamsView::Base(v0@) },
        PropErrno::SetMeta => ErrnoView { code: "meta_set_err"@, fixable: false, params: ErrnoParamsView::Base(dst) },
        PropErrno::SetMetaVal(v0) => ErrnoView { code: "meta_set_err"@, fixable: false, params: ErrnoParamsView::Base(v0@) },
        PropErrno::GetMeta => ErrnoView { code: "meta_fetch_err"@, fixable: false, params: ErrnoParamsView::Base(src) },
        PropErrno::GetMetaVal(v0) => ErrnoView { code: "meta_fetch_err"@, fixable: false, params: ErrnoParamsView::Base(v0@) },
        PropErrno::BrokenSymlink => ErrnoView { code: "broken_sym_link_err"@, fixable: false, params: ErrnoParamsView::Base(src) },
        PropErrno::BrokenSymlinkVal(v0) => ErrnoView { code: "broken_sym_link_err"@, fixable: false, params: ErrnoParamsView::Base(v0@) },
        PropErrno::CorruptedFile => ErrnoView { code: "corrupted_file_err"@, fixable: false, params: ErrnoParamsView::Base(src) },
        PropErrno::CorruptedFileVal(v0) => ErrnoView { code: "corrupted_file_err"@, fixable: false, params: ErrnoParamsView::Base(v0@) },
        PropErrno::CorruptedHeaderVal(v0) => ErrnoView { code: "corrupted_header_err"@, fixable: false, params: ErrnoParamsView::BaseAndPath(src, v0@) },
        PropErrno::Compress => ErrnoView { code: "compress_err"@, fixable: false, params: ErrnoParamsView::Base(src) },
        PropErrno::CompressVal(v0) => ErrnoView { code: "compress_err"@, fixable: false, params: ErrnoParamsView::Base(v0@) },
        PropErrno::Decompress => ErrnoView { code: "decompress_err"@, fixable: false, params: ErrnoParamsView::Base(src) },
        PropErrno::DecompressVal(v0) => ErrnoView { code: "decompress_err"@, fixable: false, params: ErrnoParamsView::Base(v0@) },
        PropErrno::Unpack => ErrnoView { code: "unpack_err"@, fixable: false, params: ErrnoParamsView::Base(src) },
        PropErrno::UnpackVal(v0) => ErrnoView { code: "unpack_err"@, fixable: false, params: ErrnoParamsView::Base(v0@) },
        PropErrno::UnpackOutofDir => ErrnoView { code: "unpack_out_dst_err"@, fixable: false, params: ErrnoParamsView::Base(src) },
        PropErrno::UnpackOutofDirVal(v0) => ErrnoView { code: "unpack_out_dst_err"@, fixable: false, params: ErrnoParamsView::Base(v0@) },
        PropErrno::Encrypt => ErrnoView { code: "encrypt_err"@, fixable: false, params: ErrnoParamsView::Base(src) },
        PropErrno::EncryptVal(v0) => ErrnoView { code: "encrypt_err"@, fixable: false, params: ErrnoParamsView::Base(v0@) },
        PropErrno::Decrypt => ErrnoView { code: "decrypt_err"@, fixable: false, params: ErrnoParamsView::Base(src) },
        PropErrno::DecryptVal(v0) => ErrnoView { code: "decrypt_err"@, fixable: false, params: ErrnoParamsView::Base(v0@) },
        PropErrno::PasswordLength(v0, v1) => ErrnoView { code: "password_len_err"@, fixable: true, params: ErrnoParamsView::PasswordLength(src, v0, v1) },
        PropErrno::PasswordLengthVal(v0, v1, v2) => ErrnoView { code: "password_len_err"@, fixable: true, params: ErrnoParamsView::PasswordLength(v0@, v1, v2) },
        PropErrno::InvalidPassword => ErrnoView { code: "password_incorrect_err"@, fixable: true, params: ErrnoParamsView::Base(src) },
        PropErrno::PasswordInterpolation => ErrnoView { code: "password_interp_err"@, fixable: true, params: ErrnoParamsView::Base(src) },
        PropErrno::PasswordInterpolationVal(v0) => ErrnoView { code: "password_interp_err"@, fixable: true, params: ErrnoParamsView::Base(v0@) },
        PropErrno::InvalidPasswordVal(v0) => ErrnoView { code: "password_incorrect_err"@, fixable: true, params: ErrnoParamsView::Base(v0@) },
        PropErrno::InvalidPassOrCorrupt => ErrnoView { code: "password_incorrect_or_corrupted_file_err"@, fixable: true, params: ErrnoParamsView::Base(src) },
        PropErrno::InvalidPassOrCorruptVal(v0) => ErrnoView { code: "password_incorrect_or_corrupted_file_err"@, fixable: true, params: ErrnoParamsView::Base(v0@) },
    }
}

impl Errno {
    pub open spec fn view(&self) -> ErrnoView {
        ErrnoView { code: self.spec_code(), fixable: self.spec_fixable(), params: self.spec_params().view() }
    }

    pub closed spec fn spec_code(&self) -> Seq<char> {
        self.code@
    }

    pub closed spec fn spec_fixable(&self) -> bool {
        self.fixable
    }

    pub closed spec fn spec_params(&self) -> ErrnoParams {
        self.params
    }

    pub fn params(&self) -> (r: ErrnoParams)
        ensures
            r.view() == self.view().params,
    {
        match &self.params {
            ErrnoParams::Empty => ErrnoParams::Empty,
            ErrnoParams::Base(b) => ErrnoParams::Base(b.clone()),
            ErrnoParams::FromTo(f, t) => ErrnoParams::FromTo(f.clone(), t.clone()),
            ErrnoParams::BaseAndPath(b, p) => ErrnoParams::BaseAndPath(b.clone(), p.clone()),
            ErrnoParams::PasswordLength(b, lo, hi) => ErrnoParams::PasswordLength(b.clone(), *lo, *hi),
        }
    }

    pub fn code(&self) -> (r: String)
        ensures
            r@ == self.view().code,
    {
        self.code.clone()
    }

    pub fn is_fixable(&self) -> (r: bool)
        ensures
            r == self.view().fixable,
    {
        self.fixable
    }

    /// The closest known error for a failure that has no kind of its own, or
    /// the unknown error.
    pub fn from_io(closest_errno: Option<Errno>) -> (r: Errno)
        ensures
            match closest_errno {
                Some(e) => r == e,
                None => r.view() == (ErrnoView { code: "unknown_err"@, fixable: false, params: ErrnoParamsView::Empty }),
            },
    {
        match closest_errno {
            Some(e) => e,
            None => Errno::unknown(),
        }
    }

    /// The user-visible error for an error kind; kinds without a path take
    /// the task's source or destination label out of `params`.
    pub fn from_prop_errno(prop_errno: PropErrno, params: &mut PropErrnoParams) -> (r: Errno)
        ensures
            r.view() == spec_errno_of(
                prop_errno,
                or_unknown(old(params).spec_src()),
                or_unknown(old(params).spec_dst()),
            ),
            final(params).spec_src() == (if uses_src(prop_errno) {
                None
            } else {
                old(params).spec_src()
            }),
            final(params).spec_dst() == (if uses_dst(prop_errno) {
                None
            } else {
                old(params).spec_dst()
            }),
    {
        match prop_errno {
            PropErrno::Unknown => Errno::unknown(),
            PropErrno::UnknownVal(v0) => Errno::unknown(),
            PropErrno::NoMem => Errno::mem(),
            PropErrno::NoStorage => Errno::storage(),
            PropErrno::PlatformNotSupported => Errno::unsupported_platform(),
            PropErrno::TooManyTasks => Errno::too_many_tasks(),
            PropErrno::Interrupted => Errno::interrupted(params.src()),
            PropErrno::InterruptedVal(v0) => Errno::interrupted(v0),
            PropErrno::PathNotFound => Errno::path_not_found(params.src()),
            PropErrno::PathNotFoundVal(v0) => Errno::path_not_found(v0),
            PropErrno::PathCopy => Errno::path_copy(params.src()),
            PropErrno::PathCopyVal(v0) => Errno::path_copy(v0),
            PropErrno::PathNormalize => Errno::path_normalize(params.src()),
            PropErrno::PathNormalizeVal(v0) => Errno::path_normalize(v0),
            PropErrno::ExpectedDir => Errno::expected_dir(params.src()),
            PropErrno::ExpectedDirVal(v0) => Errno::expected_dir(v0),
            PropErrno::ExpectedDstDir => Errno::expected_dir(params.dst()),
            PropErrno::ExpectedFile => Errno::expected_file(params.src()),
            PropErrno::ExpectedFileVal(v0) => Errno::expected_file(v0),
            PropErrno::ExpectedDstFile => Errno::expected_file(params.dst()),
            PropErrno::Read => Errno::read(params.src()),
            PropErrno::ReadVal(v0) => Errno::read(v0),
            PropErrno::ReadDir => Errno::read_dir(params.src()),
            PropErrno::ReadDirVal(v0) => Errno::read_dir(v0),
            PropErrno::Write => Errno::write(params.dst()),
            PropErrno::WriteVal(v0) => Errno::write(v0),
            PropErrno::Copy => Errno::copy(params.src(), params.dst()),
            PropErrno::CopyVal(v0, v1) => Errno::copy(v0, v1),
            PropErrno::Move => Errno::cut(params.src(), params.dst()),
            PropErrno::MoveVal(v0, v1) => Errno::cut(v0, v1),
            PropErrno::Delete => Errno::delete(params.src()),
            PropErrno::DeleteVal(v0) => Errno::delete(v0),
            PropErrno::Rename => Errno::rename(params.src()),
            PropErrno::RenameVal(v0) => Errno::rename(v0),
            PropErrno::EntityCreation(v0) => Errno::entity_create(v0),
            PropErrno::Finish => Errno::finish(params.dst()),
            PropErrno::FinishVal(v0) => Errno::finish(v0),
            PropErrno::Loop => Errno::loops(params.src()),
            PropErrno::LoopVal(v0) => Errno::loops(v0),
            PropErrno::TimedOut => Errno::unknown(),
            PropErrno::TimedOutVal(v0) => Errno::unknown(),
            PropErrno::ReadPerm => Errno::read_perm(params.src()),
            PropErrno::ReadPermVal(v0) => Errno::read_perm(v0),
            PropErrno::WritePerm => Errno::write_perm(params.dst()),
            PropErrno::WritePermVal(v0) => Errno::write_perm(v0),
            PropErrno::ReadWritePerm => Errno::read_write_perm(params.src()),
            PropErrno::ReadWritePermVal(v0) => Errno::read_write_perm(v0),
            PropErrno::SetPerm => Errno::perm_set(params.dst()),
            PropErrno::SetPermVal(v0) => Errno::perm_set(v0),
            PropErrno::SetMeta => Errno::meta_set(params.dst()),
            PropErrno::SetMetaVal(v0) => Errno::meta_set(v0),
            PropErrno::GetMeta => Errno::meta_fetch(params.src()),
            PropErrno::GetMetaVal(v0) => Errno::meta_fetch(v0),
            PropErrno::BrokenSymlink => Errno::broken_sym_link(params.src()),
            PropErrno::BrokenSymlinkVal(v0) => Errno::broken_sym_link(v0),
            PropErrno::CorruptedFile => Errno::corrupted_file(params.src()),
            PropErrno::CorruptedFileVal(v0) => Errno::corrupted_file(v0),
            PropErrno::CorruptedHeaderVal(v0) => Errno::corrupted_header(params.src(), v0),
            PropErrno::Compress => Errno::compress(params.src()),
            PropErrno::CompressVal(v0) => Errno::compress(v0),
            PropErrno::Decompress => Errno::decompress(params.src()),
            PropErrno::DecompressVal(v0) => Errno::decompress(v0),
            PropErrno::Unpack => Errno::unpack(params.src()),
            PropErrno::UnpackVal(v0) => Errno::unpack(v0),
            PropErrno::UnpackOutofDir => Errno::unpack_out_dst(params.src()),
            PropErrno::UnpackOutofDirVal(v0) => Errno::unpack_out_dst(v0),
            PropErrno::Encrypt => Errno::encrypt(params.src()),
            PropErrno::EncryptVal(v0) => Errno::encrypt(v0),
            PropErrno::Decrypt => Errno::decrypt(params.src()),
            PropErrno::DecryptVal(v0) => Errno::decrypt(v0),
            PropErrno::PasswordLength(v0, v1) => Errno::password_len(params.src(), v0, v1),
            PropErrno::PasswordLengthVal(v0, v1, v2) => Errno::password_len(v0, v1, v2),
            PropErrno::InvalidPassword => Errno::password_incorrect(params.src()),
            PropErrno::PasswordInterpolation => Errno::password_interp(params.src()),
            PropErrno::PasswordInterpolationVal(v0) => Errno::password_interp(v0),
            PropErrno::InvalidPasswordVal(v0) => Errno::password_incorrect(v0),
            PropErrno::InvalidPassOrCorrupt => Errno::password_incorrect_or_corrupted_file(params.src()),
            PropErrno::InvalidPassOrCorruptVal(v0) => Errno::password_incorrect_or_corrupted_file(v0),
        }
    }

    pub fn unknown() -> (r: Errno)
        ensures
            r.view() == (ErrnoView { code: "unknown_err"@, fixable: false, params: ErrnoParamsView::Empty }),
    {
        Errno { code: String::from_str("unknown_err"), fixable: false, params: ErrnoParams::Empty }
    }

    pub fn mem() -> (r: Errno)
        ensures
            r.view() == (ErrnoView { code: "mem_err"@, fixable: false, params: ErrnoParamsView::Empty }),
    {
        Errno { code: String::from_str("mem_err"), fixable: false, params: ErrnoParams::Empty }
    }

    pub fn unsupported_platform() -> (r: Errno)
        ensures
            r.view() == (ErrnoView { code: "unsupported_platform_err"@, fixable: false, params: ErrnoParamsView::Empty }),
    {
        Errno { code: String::from_str("unsupported_platform_err"), fixable: false, params: ErrnoParams::Empty }
    }

    pub fn too_many_tasks() -> (r: Errno)
        ensures
            r.view() == (ErrnoView { code: "too_many_tasks_err"@, fixable: false, params: ErrnoParamsView::Empty }),
    {
        Errno { code: String::from_str("too_many_tasks_err"), fixable: false, params: ErrnoParams::Empty }
    }

    pub fn storage() -> (r: Errno)
        ensures
            r.view() == (ErrnoView { code: "store_err"@, fixable: false, params: ErrnoParamsView::Empty }),
    {
        Errno { code: String::from_str("store_err"), fixable: false, params: ErrnoParams::Empty }
    }

    pub fn interrupted(base: String) -> (r: Errno)
        ensures
            r.view() == (ErrnoView { code: "interrupted_err"@, fixable: false, params: ErrnoParamsView::Base(base@) }),
    {
        Errno { code: String::from_str("interrupted_err"), fixable: false, params: ErrnoParams::Base(base) }
    }

    pub fn read_dir(base: String) -> (r: Errno)
        ensures
            r.view() == (ErrnoView { code: "read_dir_err"@, fixable: false, params: ErrnoParamsView::Base(base@) }),
    {
        Errno { code: String::from_str("read_dir_err"), fixable: false, params: ErrnoParams::Base(base) }
    }

    pub fn rename(base: String) -> (r: Errno)
        ensures
            r.view() == (ErrnoView { code: "rename_err"@, fixable: false, params: ErrnoParamsView::Base(base@) }),
    {
        Errno { code: String::from_str("rename_err"), fixable: false, params: ErrnoParams::Base(base) }
    }

    pub fn copy(from: String, to: String) -> (r: Errno)
        ensures
            r.view() == (ErrnoView { code: "copy_err"@, fixable: false, params: ErrnoParamsView::FromTo(from@, to@) }),
    {
        Errno { code: String::from_str("copy_err"), fixable: false, params: ErrnoParams::FromTo(from, to) }
    }

    pub fn cut(from: String, to: String) -> (r: Errno)
        ensures
            r.view() == (ErrnoView { code: "cut_err"@, fixable: false, params: ErrnoParamsView::FromTo(from@, to@) }),
    {
        Errno { code: String::from_str("cut_err"), fixable: false, params: ErrnoParams::FromTo(from, to) }
    }

    pub fn read(base: String) -> (r: Errno)
        ensures
            r.view() == (ErrnoView { code: "read_err"@, fixable: false, params: ErrnoParamsView::Base(base@) }),
    {
        Errno { code: String::from_str("read_err"), fixable: false, params: ErrnoParams::Base(base) }
    }

    pub fn loops(base: String) -> (r: Errno)
        ensures
            r.view() == (ErrnoView { code: "loop_err"@, fixable: false, params: ErrnoParamsView::Base(base@) }),
    {
        Errno { code: String::from_str("loop_err"), fixable: false, params: ErrnoParams::Base(base) }
    }

    pub fn write(base: String) -> (r: Errno)
        ensures
            r.view() == (ErrnoView { code: "write_err"@, fixable: false, params: ErrnoParamsView::Base(base@) }),
    {
        Errno { code: String::from_str("write_err"), fixable: false, params: ErrnoParams::Base(base) }
    }

    pub fn delete(base: String) -> (r: Errno)
        ensures
            r.view() == (ErrnoView { code: "delete_err"@, fixable: false, params: ErrnoParamsView::Base(base@) }),
    {
        Errno { code: String::from_str("delete_err"), fixable: false, params: ErrnoParams::Base(base) }
    }

    pub fn finish(base: String) -> (r: Errno)
        ensures
            r.view() == (ErrnoView { code: "finish_err"@, fixable: false, params: ErrnoParamsView::Base(base@) }),
    {
        Errno { code: String::from_str("finish_err"), fixable: false, params: ErrnoParams::Base(base) }
    }

    pub fn expected_file(base: String) -> (r: Errno)
        ensures
            r.view() == (ErrnoView { code: "expected_file_err"@, fixable: true, params: ErrnoParamsView::Base(base@) }),
    {
        Errno { code: String::from_str("expected_file_err"), fixable: true, params: ErrnoParams::Base(base) }
    }

    pub fn expected_dir(base: String) -> (r: Errno)
        ensures
            r.view() == (ErrnoView { code: "expected_dir_err"@, fixable: true, params: ErrnoParamsView::Base(base@) }),
    {
        Errno { code: String::from_str("expected_dir_err"), fixable: true, params: ErrnoParams::Base(base) }
    }

    pub fn write_perm(base: String) -> (r: Errno)
        ensures
            r.view() == (ErrnoView { code: "write_perm_err"@, fixable: false, params: ErrnoParamsView::Base(base@) }),
    {
        Errno { code: String::from_str("write_perm_err"), fixable: false, params: ErrnoParams::Base(base) }
    }

    pub fn read_perm(base: String) -> (r: Errno)
        ensures
            r.view() == (ErrnoView { code: "read_perm_err"@, fixable: false, params: ErrnoParamsView::Base(base@) }),
    {
        Errno { code: String::from_str("read_perm_err"), fixable: false, params: ErrnoParams::Base(base) }
    }

    pub fn read_write_perm(base: String) -> (r: Errno)
        ensures
            r.view() == (ErrnoView { code: "read_write_perm_err"@, fixable: false, params: ErrnoParamsView::Base(base@) }),
    {
        Errno { code: String::from_str("read_write_perm_err"), fixable: false, params: ErrnoParams::Base(base) }
    }

    pub fn perm_set(base: String) -> (r: Errno)
        ensures
            r.view() == (ErrnoView { code: "perm_set_err"@, fixable: false, params: ErrnoParamsView::Base(base@) }),
    {
        Errno { code: String::from_str("perm_set_err"), fixable: false, params: ErrnoParams::Base(base) }
    }

    pub fn path_not_found(base: String) -> (r: Errno)
        ensures
            r.view() == (ErrnoView { code: "path_not_found_err"@, fixable: true, params: ErrnoParamsView::Base(base@) }),
    {
        Errno { code: String::from_str("path_not_found_err"), fixable: true, params: ErrnoParams::Base(base) }
    }

    pub fn path_copy(base: String) -> (r: Errno)
        ensures
            r.view() == (ErrnoView { code: "path_copy_err"@, fixable: false, params: ErrnoParamsView::Base(base@) }),
    {
        Errno { code: String::from_str("path_copy_err"), fixable: false, params: ErrnoParams::Base(base) }
    }

    pub fn path_normalize(base: String) -> (r: Errno)
        ensures
            r.view() == (ErrnoView { code: "path_normalize_err"@, fixable: false, params: ErrnoParamsView::Base(base@) }),
    {
        Errno { code: String::from_str("path_normalize_err"), fixable: false, params: ErrnoParams::Base(base) }
    }

    pub fn entity_create(base: String) -> (r: Errno)
        ensures
            r.view() == (ErrnoView { code: "entity_create_err"@, fixable: false, params: ErrnoParamsView::Base(base@) }),
    {
        Errno { code: String::from_str("entity_create_err"), fixable: false, params: ErrnoParams::Base(base) }
    }

    pub fn broken_sym_link(base: String) -> (r: Errno)
        ensures
            r.view() == (ErrnoView { code: "broken_sym_link_err"@, fixable: false, params: ErrnoParamsView::Base(base@) }),
    {
        Errno { code: String::from_str("broken_sym_link_err"), fixable: false, params: ErrnoParams::Base(base) }
    }

    pub fn meta_set(base: String) -> (r: Errno)
        ensures
            r.view() == (ErrnoView { code: "meta_set_err"@, fixable: false, params: ErrnoParamsView::Base(base@) }),
    {
        Errno { code: String::from_str("meta_set_err"), fixable: false, params: ErrnoParams::Base(base) }
    }

    pub fn meta_fetch(base: String) -> (r: Errno)
        ensures
            r.view() == (ErrnoView { code: "meta_fetch_err"@, fixable: false, params: ErrnoParamsView::Base(base@) }),
    {
        Errno { code: String::from_str("meta_fetch_err"), fixable: false, params: ErrnoParams::Base(base) }
    }

    pub fn corrupted_file(base: String) -> (r: Errno)
        ensures
            r.view() == (ErrnoView { code: "corrupted_file_err"@, fixable: false, params: ErrnoParamsView::Base(base@) }),
    {
        Errno { code: String::from_str("corrupted_file_err"), fixable: false, params: ErrnoParams::Base(base) }
    }

    pub fn compress(base: String) -> (r: Errno)
        ensures
            r.view() == (ErrnoView { code: "compress_err"@, fixable: false, params: ErrnoParamsView::Base(base@) }),
    {
        Errno { code: String::from_str("compress_err"), fixable: false, params: ErrnoParams::Base(base) }
    }

    pub fn decompress(base: String) -> (r: Errno)
        ensures
            r.view() == (ErrnoView { code: "decompress_err"@, fixable: false, params: ErrnoParamsView::Base(base@) }),
    {
        Errno { code: String::from_str("decompress_err"), fixable: false, params: ErrnoParams::Base(base) }
    }

    pub fn corrupted_header(base: String, path: String) -> (r: Errno)
        ensures
            r.view() == (ErrnoView { code: "corrupted_header_err"@, fixable: false, params: ErrnoParamsView::BaseAndPath(base@, path@) }),
    {
        Errno { code: String::from_str("corrupted_header_err"), fixable: false, params: ErrnoParams::BaseAndPath(base, path) }
    }

    pub fn unpack(base: String) -> (r: Errno)
        ensures
            r.view() == (ErrnoView { code: "unpack_err"@, fixable: false, params: ErrnoParamsView::Base(base@) }),
    {
        Errno { code: String::from_str("unpack_err"), fixable: false, params: ErrnoParams::Base(base) }
    }

    pub fn unpack_out_dst(base: String) -> (r: Errno)
        ensures
            r.view() == (ErrnoView { code: "unpack_out_dst_err"@, fixable: false, params: ErrnoParamsView::Base(base@) }),
    {
        Errno { code: String::from_str("unpack_out_dst_err"), fixable: false, params: ErrnoParams::Base(base) }
    }

    pub fn encrypt(base: String) -> (r: Errno)
        ensures
            r.view() == (ErrnoView { code: "encrypt_err"@, fixable: false, params: ErrnoParamsView::Base(base@) }),
    {
        Errno { code: String::from_str("encrypt_err"), fixable: false, params: ErrnoParams::Base(base) }
    }

    pub fn decrypt(base: String) -> (r: Errno)
        ensures
            r.view() == (ErrnoView { code: "decrypt_err"@, fixable: false, params: ErrnoParamsView::Base(base@) }),
    {
        Errno { code: String::from_str("decrypt_err"), fixable: false, params: ErrnoParams::Base(base) }
    }

    pub fn password_len(base: String, min: u8, max: u8) -> (r: Errno)
        ensures
            r.view() == (ErrnoView { code: "password_len_err"@, fixable: true, params: ErrnoParamsView::PasswordLength(base@, min, max) }),
    {
        Errno { code: String::from_str("password_len_err"), fixable: true, params: ErrnoParams::PasswordLength(base, min, max) }
    }

    pub fn password_interp(base: String) -> (r: Errno)
        ensures
            r.view() == (ErrnoView { code: "password_interp_err"@, fixable: true, params: ErrnoParamsView::Base(base@) }),
    {
        Errno { code: String::from_str("password_interp_err"), fixable: true, params: ErrnoParams::Base(base) }
    }

    pub fn password_incorrect(base: String) -> (r: Errno)
        ensures
            r.view() == (ErrnoView { code: "password_incorrect_err"@, fixable: true, params: ErrnoParamsView::Base(base@) }),
    {
        Errno { code: String::from_str("password_incorrect_err"), fixable: true, params: ErrnoParams::Base(base) }
    }

    pub fn password_incorrect_or_corrupted_file(base: String) -> (r: Errno)
        ensures
            r.view() == (ErrnoView { code: "password_incorrect_or_corrupted_file_err"@, fixable: true, params: ErrnoParamsView::Base(base@) }),
    {
        Errno { code: String::from_str("password_incorrect_or_corrupted_file_err"), fixable: true, params: ErrnoParams::Base(base) }
    }
}

impl Default for Errno {
    fn default() -> (r: Errno)
        ensures
            r.view() == (ErrnoView { code: "unknown_err"@, fixable: false, params: ErrnoParamsView::Empty }),
    {
        Errno::unknown()
    }
}

} // verus!

use vstd::prelude::*;
use crate::errno::{spec_errno_of, Errno};
use crate::errors::{io_errno_matches, IoErrorKind, PropErrno, PropErrnoParams};
use crate::paths::{label, spec_label};

verus! {

/// A whole-file copy from `src` to `dst`.
pub struct FileCopier {
    src: String,
    dst: String,
}

/// Which step of a copy failed: opening or reading the source, or creating
/// or writing the destination.
#[derive(Debug, Clone, Copy, PartialEq, Eq, Structural)]
pub enum CopyStep {
    OpenSource,
    CreateDestination,
    Stream,
}

impl FileCopier {
    pub closed spec fn spec_src(&self) -> Seq<char> {
        self.src@
    }

    pub closed spec fn spec_dst(&self) -> Seq<char> {
        self.dst@
    }

    pub fn new(src: String, dst: String) -> (r: FileCopier)
        ensures
            r.spec_src() == src@,
            r.spec_dst() == dst@,
    {
        FileCopier { src, dst }
    }

    pub fn src(&self) -> (r: &str)
        ensures
            r@ == self.spec_src(),
    {
        self.src.as_str()
    }

    pub fn dst(&self) -> (r: &str)
        ensures
            r@ == self.spec_dst(),
    {
        self.dst.as_str()
    }

    /// The user-visible error for an I/O failure of `kind` at `step`: the
    /// failure is tied to the destination when creating it, to the source
    /// otherwise, and reported with both labels.
    pub fn error_for(&self, step: CopyStep, kind: IoErrorKind) -> (r: Errno)
        ensures
            exists|e: PropErrno|
                io_errno_matches(
                    kind,
                    Some(
                        if step == CopyStep::CreateDestination {
                            self.spec_dst()
                        } else {
                            self.spec_src()
                        },
                    ),
                    e,
                ) && r.view() == spec_errno_of(e, spec_label(self.spec_src()), spec_label(self.spec_dst())),
    {
        let mut params = PropErrnoParams::new_with_src_and_dst(label(self.src.as_str()), label(self.dst.as_str()));
        let path = if let CopyStep::CreateDestination = step {
            self.dst.as_str()
        } else {
            self.src.as_str()
        };
        let e = PropErrno::from_io_error(kind, Some(path));
        let ghost g = e;
        let r = Errno::from_prop_errno(e, &mut params);
        assert(io_errno_matches(kind, Some(path@), g));
        assert(r.view() == spec_errno_of(g, spec_label(self.spec_src()), spec_label(self.spec_dst())));
        r
    }
}

/// How far a transfer between two paths has read and written.
pub struct Tracker {
    src: String,
    start_read: Option<u64>,
    read_pos: u64,
    end_read: Option<u64>,
    dst: String,
    write_pos: u64,
}

impl Tracker {
    pub closed spec fn spec_src(&self) -> Seq<char> {
        self.src@
    }

    pub closed spec fn spec_dst(&self) -> Seq<char> {
        self.dst@
    }

    pub closed spec fn spec_start_read(&self) -> Option<u64> {
        self.start_read
    }

    pub closed spec fn spec_end_read(&self) -> Option<u64> {
        self.end_read
    }

    pub closed spec fn spec_read_pos(&self) -> u64 {
        self.read_pos
    }

    pub closed spec fn spec_write_pos(&self) -> u64 {
        self.write_pos
    }

    pub fn new(src: String, dst: String) -> (r: Tracker)
        ensures
            r.spec_src() == src@,
            r.spec_dst() == dst@,
            r.spec_start_read() is None,
            r.spec_end_read() is None,
            r.spec_read_pos() == 0,
            r.spec_write_pos() == 0,
    {
        Tracker { src, start_read: None, read_pos: 0, end_read: None, dst, write_pos: 0 }
    }

    pub fn set_start(self, start: u64) -> (r: Tracker)
        ensures
            r.spec_start_read() == Some(start),
            r.spec_src() == self.spec_src(),
            r.spec_dst() == self.spec_dst(),
            r.spec_end_read() == self.spec_end_read(),
            r.spec_read_pos() == self.spec_read_pos(),
            r.spec_write_pos() == self.spec_write_pos(),
    {
        let mut t = self;
        t.start_read = Some(start);
        t
    }

    pub fn set_end(self, end: u64) -> (r: Tracker)
        ensures
            r.spec_end_read() == Some(end),
            r.spec_src() == self.spec_src(),
            r.spec_dst() == self.spec_dst(),
            r.spec_start_read() == self.spec_start_read(),
            r.spec_read_pos() == self.spec_read_pos(),
            r.spec_write_pos() == self.spec_write_pos(),
    {
        let mut t = self;
        t.end_read = Some(end);
        t
    }

    pub fn update(&mut self, read_pos: u64, write_pos: u64)
        ensures
            final(self).spec_read_pos() == read_pos,
            final(self).spec_write_pos() == write_pos,
            final(self).spec_src() == old(self).spec_src(),
            final(self).spec_dst() == old(self).spec_dst(),
            final(self).spec_start_read() == old(self).spec_start_read(),
            final(self).spec_end_read() == old(self).spec_end_read(),
    {
        self.read_pos = read_pos;
        self.write_pos = write_pos;
    }

    pub fn read_pos(&self) -> (r: u64)
        ensures
            r == self.spec_read_pos(),
    {
        self.read_pos
    }

    pub fn write_pos(&self) -> (r: u64)
        ensures
            r == self.spec_write_pos(),
    {
        self.write_pos
    }
}

} // verus!

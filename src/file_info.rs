use vstd::prelude::*;
use vstd::string::*;
use crate::algorithm::{extension_of, guessed_mime, path_extension, select_algorithm, size_algorithm, spec_ext, Algorithm};
use crate::paths::{file_name_of, path_file_name, unknown_path};
use crate::performance::Performance;
use crate::text::{decimal, u128_to_decimal};

verus! {

/// What a directory entry is.
#[derive(Debug, Clone, Copy, PartialEq, Eq, Structural)]
pub enum EntryKind {
    File,
    Dir,
    Symlink,
}

/// The algorithm a file gets: the selection policy on its path when
/// compression is wanted, none otherwise.
pub open spec fn detected_algorithm(path: Seq<char>, size: u64, compressed: bool, perf: Performance) -> Algorithm {
    if compressed {
        match guessed_mime(path) {
            Some(m) => select_algorithm(size, m, path_extension(path), perf),
            None => size_algorithm(size),
        }
    } else {
        Algorithm::Plain
    }
}

/// The file name of part `num`: `.EXT` and the index appended, where `EXT` is
/// the algorithm's extension, or the bare index without one.
pub open spec fn spec_part_name(name: Seq<char>, algorithm: Option<Algorithm>, num: nat) -> Seq<char> {
    let ext = match algorithm {
        Some(a) => match spec_ext(a) {
            Some(e) => e,
            None => Seq::empty(),
        },
        None => Seq::empty(),
    };
    name + "."@ + ext + decimal(num)
}

/// A file to transfer: its size, path, kind and, once chosen, its algorithm.
pub struct FileInfo {
    size: u64,
    path: String,
    file_type: EntryKind,
    compression: Option<Algorithm>,
}

impl FileInfo {
    pub closed spec fn spec_size(&self) -> u64 {
        self.size
    }

    pub closed spec fn spec_path(&self) -> Seq<char> {
        self.path@
    }

    pub closed spec fn spec_file_type(&self) -> EntryKind {
        self.file_type
    }

    pub closed spec fn spec_compression(&self) -> Option<Algorithm> {
        self.compression
    }

    /// The name used for the file: its file name, or the unknown-location
    /// label.
    pub open spec fn spec_name(&self) -> Seq<char> {
        match path_file_name(self.spec_path()) {
            Some(n) => n,
            None => "[unknown_path]"@,
        }
    }

    /// A file whose algorithm is not chosen yet.
    pub fn new(path: String, size: u64, file_type: EntryKind) -> (r: FileInfo)
        ensures
            r.spec_path() == path@,
            r.spec_size() == size,
            r.spec_file_type() == file_type,
            r.spec_compression() is None,
    {
        FileInfo { size, path, file_type, compression: None }
    }

    /// A file with its algorithm chosen (see `detect_compression`).
    pub fn from_path_and_detect(
        path: String,
        size: u64,
        file_type: EntryKind,
        compressed: bool,
        perf: &Performance,
    ) -> (r: FileInfo)
        ensures
            r.spec_path() == path@,
            r.spec_size() == size,
            r.spec_file_type() == file_type,
            r.spec_compression() == Some(detected_algorithm(path@, size, compressed, *perf)),
    {
        let mut info = FileInfo::new(path, size, file_type);
        info.detect_compression(compressed, perf);
        info
    }

    pub fn size(&self) -> (r: &u64)
        ensures
            *r == self.spec_size(),
    {
        &self.size
    }

    pub fn name(&self) -> (r: String)
        ensures
            r@ == self.spec_name(),
    {
        match file_name_of(self.path.as_str()) {
            Some(n) => n,
            None => unknown_path(),
        }
    }

    /// The file name of part `num` of this file.
    pub fn append_part_num(&self, num: &u16) -> (r: String)
        ensures
            r@ == spec_part_name(self.spec_name(), self.spec_compression(), *num as nat),
    {
        let name = self.name();
        let num_text = u128_to_decimal(*num as u128);
        let ext: &str = match self.compression {
            Some(a) => match a.get_ext() {
                Some(e) => e,
                None => "",
            },
            None => "",
        };
        proof {
            reveal_strlit("");
        }
        let r = name.concat(".").concat(ext).concat(num_text.as_str());
        assert(r@ =~= spec_part_name(self.spec_name(), self.spec_compression(), *num as nat));
        r
    }

    pub fn compression(&self) -> (r: Option<&Algorithm>)
        ensures
            match r {
                Some(a) => self.spec_compression() == Some(*a),
                None => self.spec_compression() is None,
            },
    {
        self.compression.as_ref()
    }

    /// Chooses the algorithm once: an algorithm already chosen stays.
    pub fn detect_compression(&mut self, compressed: bool, perf: &Performance)
        ensures
            final(self).spec_compression() == match old(self).spec_compression() {
                Some(a) => Some(a),
                None => Some(detected_algorithm(old(self).spec_path(), old(self).spec_size(), compressed, *perf)),
            },
            final(self).spec_path() == old(self).spec_path(),
            final(self).spec_size() == old(self).spec_size(),
            final(self).spec_file_type() == old(self).spec_file_type(),
    {
        if self.compression.is_some() {
            return;
        }
        if compressed {
            self.compression = Some(Algorithm::from_path_and_size(self.path.as_str(), &self.size, perf));
        } else {
            self.compression = Some(Algorithm::Plain);
        }
    }

    pub fn file_type(&self) -> (r: &EntryKind)
        ensures
            *r == self.spec_file_type(),
    {
        &self.file_type
    }

    pub fn src(&self) -> (r: &str)
        ensures
            r@ == self.spec_path(),
    {
        self.path.as_str()
    }

    pub fn ext(&self) -> (r: Option<&str>)
        ensures
            match r {
                Some(e) => path_extension(self.spec_path()) == Some(e@),
                None => path_extension(self.spec_path()) is None,
            },
    {
        extension_of(self.path.as_str())
    }
}

} // verus!

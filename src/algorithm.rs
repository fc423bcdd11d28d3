use vstd::prelude::*;
use crate::performance::Performance;
use crate::text::{has_prefix, str_eq};

verus! {

/// The streaming codec applied to a file or a part.
#[derive(Debug, Clone, Copy, PartialEq, Eq, Structural)]
pub enum Algorithm {
    /// No compression.
    Plain,
    /// Fast with moderate compression; for large files.
    Bzip2,
    /// Slow with good compression; for the largest files.
    Xz,
    /// Good for text.
    Brotli,
    /// General purpose; the default.
    Zstd,
}

pub const BZ_EXT: &'static str = "bz";
pub const BZ_PARTED_EXT: &'static str = "bz0";
pub const XZ_EXT: &'static str = "xz";
pub const XZ_PARTED_EXT: &'static str = "xz0";
pub const ZST_EXT: &'static str = "zst";
pub const ZST_PARTED_EXT: &'static str = "zst0";
pub const BR_EXT: &'static str = "br";
pub const BR_PARTED_EXT: &'static str = "br0";
pub const NONE_PARTED_EXT: &'static str = "0";

/// Below this size a file that is not text is compressed with Zstd.
pub const ZSTD_SIZE_MIN_THRESHOLD: u64 = 100_000_000;
pub const BZIP2_SIZE_MIN_THRESHOLD: u64 = 256_000_000;
/// Above this size, and only at the fastest setting, Xz is used.
pub const XZ_SIZE_MIN_THRESHOLD: u64 = 1_500_000_000;

/// The media types (by prefix of their essence) that are compressed with Brotli
/// whatever their size.
pub open spec fn is_brotli_mime(mime: Seq<char>) -> bool {
    ||| "text/"@.is_prefix_of(mime)
    ||| "application/vnd."@.is_prefix_of(mime)
    ||| "application/pdf"@.is_prefix_of(mime)
    ||| "application/x-tar"@.is_prefix_of(mime)
    ||| "application/x-iso9660-image"@.is_prefix_of(mime)
    ||| "image/svg+xml"@.is_prefix_of(mime)
    ||| "application/javascript"@.is_prefix_of(mime)
    ||| "application/json"@.is_prefix_of(mime)
    ||| "application/xml"@.is_prefix_of(mime)
}

/// The selection policy over size, media type, extension and performance.
pub open spec fn select_algorithm(
    size: u64,
    mime: Seq<char>,
    ext: Option<Seq<char>>,
    perf: Performance,
) -> Algorithm {
    if is_brotli_mime(mime) {
        Algorithm::Brotli
    } else if ext == Some("iso"@) {
        Algorithm::Brotli
    } else if size < 100_000_000 {
        Algorithm::Zstd
    } else if size > 1_500_000_000 && perf == Performance::Fast {
        Algorithm::Xz
    } else {
        Algorithm::Bzip2
    }
}

/// The choice by size alone, used when the media type is unknown.
pub open spec fn size_algorithm(size: u64) -> Algorithm {
    if size < 100_000_000 {
        Algorithm::Zstd
    } else if size > 1_500_000_000 {
        Algorithm::Xz
    } else {
        Algorithm::Bzip2
    }
}

pub open spec fn spec_ext(a: Algorithm) -> Option<Seq<char>> {
    match a {
        Algorithm::Plain => None,
        Algorithm::Bzip2 => Some("bz"@),
        Algorithm::Xz => Some("xz"@),
        Algorithm::Brotli => Some("br"@),
        Algorithm::Zstd => Some("zst"@),
    }
}

/// The algorithm that a file extension names, plain or as the first part.
pub open spec fn spec_from_ext(ext: Seq<char>) -> Option<Algorithm> {
    if ext == "bz"@ || ext == "bz0"@ {
        Some(Algorithm::Bzip2)
    } else if ext == "xz"@ || ext == "xz0"@ {
        Some(Algorithm::Xz)
    } else if ext == "zst"@ || ext == "zst0"@ {
        Some(Algorithm::Zstd)
    } else if ext == "br"@ || ext == "br0"@ {
        Some(Algorithm::Brotli)
    } else if ext == "0"@ {
        Some(Algorithm::Plain)
    } else {
        None
    }
}

/// What `mime_guess` gives as the first media type for a path, as its essence.
pub uninterp spec fn guessed_mime(path: Seq<char>) -> Option<Seq<char>>;

/// What `Path::extension` gives for a path.
pub uninterp spec fn path_extension(path: Seq<char>) -> Option<Seq<char>>;

/// Relies on `mime_guess::from_path(..).first()` and `Mime::essence_str`: the
/// guess is made from the path's extension alone, and a path without an
/// extension has none.
#[verifier::external_body]
pub(crate) fn guess_mime(path: &str) -> (r: Option<String>)
    ensures
        r matches Some(m) ==> guessed_mime(path@) == Some(m@),
        r is None <==> guessed_mime(path@) is None,
        path_extension(path@) is None ==> r is None,
{
    mime_guess::from_path(path).first().map(|m| m.essence_str().to_string())
}

/// Relies on `std::path::Path::extension`: the part of the file name after its
/// last dot.
#[verifier::external_body]
pub(crate) fn extension_of(path: &str) -> (r: Option<&str>)
    ensures
        r matches Some(e) ==> path_extension(path@) == Some(e@),
        r is None <==> path_extension(path@) is None,
{
    std::path::Path::new(path).extension().and_then(|e| e.to_str())
}

fn is_brotli_format(mime: &str) -> (r: bool)
    ensures
        r == is_brotli_mime(mime@),
{
    has_prefix(mime, "text/") || has_prefix(mime, "application/vnd.") || has_prefix(
        mime,
        "application/pdf",
    ) || has_prefix(mime, "application/x-tar") || has_prefix(
        mime,
        "application/x-iso9660-image",
    ) || has_prefix(mime, "image/svg+xml") || has_prefix(mime, "application/javascript")
        || has_prefix(mime, "application/json") || has_prefix(mime, "application/xml")
}

impl Algorithm {
    /// The algorithm named by a file extension: `bz`/`bz0`, `xz`/`xz0`,
    /// `zst`/`zst0`, `br`/`br0`, or `0` for an uncompressed first part.
    pub fn from_ext(ext: &str) -> (r: Option<Algorithm>)
        ensures
            r == spec_from_ext(ext@),
    {
        if str_eq(ext, BZ_EXT) || str_eq(ext, BZ_PARTED_EXT) {
            return Some(Algorithm::Bzip2);
        }
        if str_eq(ext, XZ_EXT) || str_eq(ext, XZ_PARTED_EXT) {
            return Some(Algorithm::Xz);
        }
        if str_eq(ext, ZST_EXT) || str_eq(ext, ZST_PARTED_EXT) {
            return Some(Algorithm::Zstd);
        }
        if str_eq(ext, BR_EXT) || str_eq(ext, BR_PARTED_EXT) {
            return Some(Algorithm::Brotli);
        }
        if str_eq(ext, NONE_PARTED_EXT) {
            return Some(Algorithm::Plain);
        }
        None
    }

    /// The algorithm for a file of `size` bytes, media type essence `mime` and
    /// extension `ext`, at performance `perf`.
    pub fn from_info(size: &u64, mime: &str, ext: Option<&str>, perf: &Performance) -> (r:
        Algorithm)
        ensures
            r == select_algorithm(
                *size,
                mime@,
                match ext {
                    Some(e) => Some(e@),
                    None => None,
                },
                *perf,
            ),
    {
        if is_brotli_format(mime) {
            return Algorithm::Brotli;
        }
        if let Some(e) = ext {
            if str_eq(e, "iso") {
                return Algorithm::Brotli;
            }
        }
        if *size < ZSTD_SIZE_MIN_THRESHOLD {
            return Algorithm::Zstd;
        }
        if *size > XZ_SIZE_MIN_THRESHOLD && *perf == Performance::Fast {
            return Algorithm::Xz;
        }
        Algorithm::Bzip2
    }

    /// The algorithm for a file whose media type is unknown.
    pub fn from_size(size: &u64) -> (r: Algorithm)
        ensures
            r == size_algorithm(*size),
    {
        if *size < ZSTD_SIZE_MIN_THRESHOLD {
            return Algorithm::Zstd;
        }
        if *size > XZ_SIZE_MIN_THRESHOLD {
            return Algorithm::Xz;
        }
        Algorithm::Bzip2
    }

    /// Brotli for the media types that favour it, none otherwise.
    pub fn from_mime(mime: &str) -> (r: Option<Algorithm>)
        ensures
            r == (if is_brotli_mime(mime@) {
                Some(Algorithm::Brotli)
            } else {
                None
            }),
    {
        if is_brotli_format(mime) {
            Some(Algorithm::Brotli)
        } else {
            None
        }
    }

    /// Brotli where the path's guessed media type favours it, Zstd otherwise.
    pub fn from_path(path: &str) -> (r: Algorithm)
        ensures
            r == (match guessed_mime(path@) {
                Some(m) => if is_brotli_mime(m) {
                    Algorithm::Brotli
                } else {
                    Algorithm::Zstd
                },
                None => Algorithm::Zstd,
            }),
    {
        if let Some(mime) = guess_mime(path) {
            if let Some(algo) = Algorithm::from_mime(mime.as_str()) {
                return algo;
            }
        }
        Algorithm::Zstd
    }

    /// The selection policy applied to a path's guessed media type and
    /// extension; by size alone where no media type is known.
    pub fn from_path_and_size(path: &str, size: &u64, perf: &Performance) -> (r: Algorithm)
        ensures
            r == (match guessed_mime(path@) {
                Some(m) => select_algorithm(*size, m, path_extension(path@), *perf),
                None => size_algorithm(*size),
            }),
    {
        if let Some(mime) = guess_mime(path) {
            let ext = extension_of(path);
            return Algorithm::from_info(size, mime.as_str(), ext, perf);
        }
        Algorithm::from_size(size)
    }

    /// Whether a codec is applied at all.
    pub fn is_enabled(&self) -> (r: bool)
        ensures
            r <==> *self != Algorithm::Plain,
    {
        match self {
            Algorithm::Plain => false,
            _ => true,
        }
    }

    /// The canonical file extension of the codec.
    pub fn get_ext(&self) -> (r: Option<&'static str>)
        ensures
            match r {
                Some(e) => spec_ext(*self) == Some(e@),
                None => spec_ext(*self) is None,
            },
    {
        match self {
            Algorithm::Plain => None,
            Algorithm::Bzip2 => Some(BZ_EXT),
            Algorithm::Xz => Some(XZ_EXT),
            Algorithm::Brotli => Some(BR_EXT),
            Algorithm::Zstd => Some(ZST_EXT),
        }
    }
}

/// The algorithm for a destination written with compression allowed or not:
/// the selection policy where the media type and size are known, Brotli or
/// Zstd by media type where only it is, by size where only it is, and Zstd
/// where neither is.
pub open spec fn spec_compression_for(
    path: Seq<char>,
    allow_compression: bool,
    size: Option<u64>,
    perf: Performance,
) -> Algorithm {
    if !allow_compression {
        Algorithm::Plain
    } else {
        match guessed_mime(path) {
            Some(m) => match size {
                Some(s) => select_algorithm(s, m, path_extension(path), perf),
                None => if is_brotli_mime(m) {
                    Algorithm::Brotli
                } else {
                    Algorithm::Zstd
                },
            },
            None => match size {
                Some(s) => size_algorithm(s),
                None => Algorithm::Zstd,
            },
        }
    }
}

/// The codec settings of a destination: its algorithm and performance.
#[derive(Debug, Clone, Copy, PartialEq, Eq, Structural)]
pub struct Compression {
    algorithm: Algorithm,
    perf: Performance,
}

impl Compression {
    pub closed spec fn spec_algorithm(&self) -> Algorithm {
        self.algorithm
    }

    pub closed spec fn spec_perf(&self) -> Performance {
        self.perf
    }

    /// Chooses the algorithm for the destination `path` (see
    /// `spec_compression_for`).
    pub fn new(path: &str, allow_compression: bool, path_size: Option<u64>, perf: &Performance) -> (r:
        Compression)
        ensures
            r.spec_algorithm() == spec_compression_for(path@, allow_compression, path_size, *perf),
            r.spec_perf() == *perf,
    {
        let mut algo = Algorithm::Plain;
        if allow_compression {
            match guess_mime(path) {
                Some(mime) => {
                    match path_size {
                        Some(size) => {
                            let ext = extension_of(path);
                            algo = Algorithm::from_info(&size, mime.as_str(), ext, perf);
                        },
                        None => {
                            algo = match Algorithm::from_mime(mime.as_str()) {
                                Some(a) => a,
                                None => Algorithm::Zstd,
                            };
                        },
                    }
                },
                None => {
                    algo = match path_size {
                        Some(size) => Algorithm::from_size(&size),
                        None => Algorithm::Zstd,
                    };
                },
            }
        }
        Compression { algorithm: algo, perf: *perf }
    }

    pub fn from_algorithm(algorithm: &Algorithm, perf: &Performance) -> (r: Compression)
        ensures
            r.spec_algorithm() == *algorithm,
            r.spec_perf() == *perf,
    {
        Compression { algorithm: *algorithm, perf: *perf }
    }

    pub fn perf(&self) -> (r: &Performance)
        ensures
            *r == self.spec_perf(),
    {
        &self.perf
    }

    pub fn is_enabled(&self) -> (r: bool)
        ensures
            r <==> self.spec_algorithm() != Algorithm::Plain,
    {
        self.algorithm.is_enabled()
    }

    pub fn algorithm(&self) -> (r: Algorithm)
        ensures
            r == self.spec_algorithm(),
    {
        self.algorithm
    }
}

impl Default for Algorithm {
    fn default() -> (r: Algorithm)
        ensures
            r == Algorithm::Plain,
    {
        Algorithm::Plain
    }
}

} // verus!

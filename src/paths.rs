use vstd::prelude::*;
use vstd::string::*;
use crate::text::{decimal, has_prefix, u128_to_decimal};
use rand::Rng;

verus! {

/// The label used where a path cannot be told.
pub const UNKNOWN_LOCATION: &'static str = "[unknown_path]";
/// The label of a path that has no file name (the file-system root).
pub const HOME_DIR: &'static str = "/home";
/// Numbered copy names tried before a random one is used.
pub const MAX_FILENAME_TRIES: usize = 100;
/// Characters of the random part of a copy name.
pub const RANDOM_NAME_LEN: usize = 8;

/// What `Path::file_name` gives for a path.
pub uninterp spec fn path_file_name(path: Seq<char>) -> Option<Seq<char>>;

/// What `Path::parent` gives for a path.
pub uninterp spec fn path_parent(path: Seq<char>) -> Option<Seq<char>>;

/// Relies on `std::path::Path::file_name`: the last normal component of the
/// path, if any (text taken from a `&str` stays valid UTF-8).
#[verifier::external_body]
pub(crate) fn file_name_of(path: &str) -> (r: Option<String>)
    ensures
        r matches Some(n) ==> path_file_name(path@) == Some(n@),
        r is None <==> path_file_name(path@) is None,
{
    std::path::Path::new(path).file_name().and_then(|n| n.to_str()).map(|n| n.to_string())
}

/// Relies on `std::path::Path::parent`: the path without its last component,
/// if it has one.
#[verifier::external_body]
pub(crate) fn parent_of(path: &str) -> (r: Option<String>)
    ensures
        r matches Some(p) ==> path_parent(path@) == Some(p@),
        r is None <==> path_parent(path@) is None,
{
    std::path::Path::new(path).parent().and_then(|p| p.to_str()).map(|p| p.to_string())
}

/// `parent/current` for a path whose parent has a name; the file name alone
/// where it has none; `/home` for a path without a file name. None where the
/// parent has a name and the path itself has none.
pub open spec fn spec_parent_and_current(path: Seq<char>) -> Option<Seq<char>> {
    let named_parent = match path_parent(path) {
        Some(par) => path_file_name(par),
        None => None,
    };
    match named_parent {
        Some(pn) => match path_file_name(path) {
            Some(cn) => Some(pn + "/"@ + cn),
            None => None,
        },
        None => match path_file_name(path) {
            Some(cn) => Some(cn),
            None => Some("/home"@),
        },
    }
}

/// The short label of a path used in errors: its parent's name and its own.
pub fn parent_and_current(path: &str) -> (r: Option<String>)
    ensures
        match r {
            Some(s) => spec_parent_and_current(path@) == Some(s@),
            None => spec_parent_and_current(path@) is None,
        },
{
    let named_parent = match parent_of(path) {
        Some(par) => file_name_of(par.as_str()),
        None => None,
    };
    match named_parent {
        Some(pn) => match file_name_of(path) {
            Some(cn) => Some(pn.concat("/").concat(cn.as_str())),
            None => None,
        },
        None => match file_name_of(path) {
            Some(cn) => Some(cn),
            None => Some(String::from_str(HOME_DIR)),
        },
    }
}

/// The label of a path, or the unknown-location label where it has none.
pub open spec fn spec_label(path: Seq<char>) -> Seq<char> {
    match spec_parent_and_current(path) {
        Some(s) => s,
        None => "[unknown_path]"@,
    }
}

/// The label of a path, or the unknown-location label where it has none.
pub fn label(path: &str) -> (r: String)
    ensures
        r@ == spec_label(path@),
{
    match parent_and_current(path) {
        Some(s) => s,
        None => unknown_path(),
    }
}

/// The label for a location that cannot be told.
pub fn unknown_path() -> (r: String)
    ensures
        r@ == "[unknown_path]"@,
{
    String::from_str(UNKNOWN_LOCATION)
}

/// Whether a walk keeps an entry: names that begin with a dot are hidden and
/// skipped with everything below them.
pub fn keep_entry(name: &str) -> (r: bool)
    ensures
        r == !"."@.is_prefix_of(name@),
{
    !has_prefix(name, ".")
}

/// Where the first dot of `s` stands, or its length where it has none.
pub open spec fn first_dot(s: Seq<char>) -> int
    decreases s.len(),
{
    if s.len() == 0 {
        0
    } else if s[0] == '.' {
        0
    } else {
        1 + first_dot(s.drop_first())
    }
}

proof fn lemma_first_dot(s: Seq<char>, i: int)
    requires
        0 <= i <= s.len(),
        forall|j: int| 0 <= j < i ==> s[j] != '.',
        i == s.len() || s[i] == '.',
    ensures
        first_dot(s) == i,
    decreases i,
{
    if i > 0 {
        lemma_first_dot(s.drop_first(), i - 1);
    }
}

/// The file name up to its first dot.
pub open spec fn name_stem(s: Seq<char>) -> Seq<char> {
    s.take(first_dot(s))
}

/// The file name from its first dot on (all its extensions), or nothing.
pub open spec fn name_extensions(s: Seq<char>) -> Seq<char> {
    s.skip(first_dot(s))
}

/// The name of the numbered copy of a file: `stem_copy.ext` for the first
/// try, `stem_copy N.ext` for try `N`.
pub open spec fn spec_copy_name(file_name: Seq<char>, attempt: nat) -> Seq<char> {
    if attempt == 0 {
        name_stem(file_name) + "_copy"@ + name_extensions(file_name)
    } else {
        name_stem(file_name) + "_copy "@ + decimal(attempt) + name_extensions(file_name)
    }
}

/// The name of a randomly named copy: `stem_copy_RANDOM.ext`.
pub open spec fn spec_random_copy_name(file_name: Seq<char>, random: Seq<char>) -> Seq<char> {
    name_stem(file_name) + "_copy_"@ + random + name_extensions(file_name)
}

fn split_first_dot(name: &str) -> (r: (&str, &str))
    ensures
        r.0@ == name_stem(name@),
        r.1@ == name_extensions(name@),
{
    let n = name.unicode_len();
    let mut i: usize = 0;
    while i < n && name.get_char(i) != '.'
        invariant
            n == name@.len(),
            i <= n,
            forall|j: int| 0 <= j < i ==> name@[j] != '.',
        decreases n - i,
    {
        i = i + 1;
    }
    proof {
        lemma_first_dot(name@, i as int);
    }
    (name.substring_char(0, i), name.substring_char(i, n))
}

/// The candidate name for try `attempt` of copying `file_name` beside itself.
pub fn copy_name(file_name: &str, attempt: usize) -> (r: String)
    ensures
        r@ == spec_copy_name(file_name@, attempt as nat),
{
    let (stem, exts) = split_first_dot(file_name);
    if attempt == 0 {
        String::from_str(stem).concat("_copy").concat(exts)
    } else {
        let num = u128_to_decimal(attempt as u128);
        String::from_str(stem).concat("_copy ").concat(num.as_str()).concat(exts)
    }
}

/// The name of a copy of `file_name` marked with the given random text.
pub fn random_copy_name(file_name: &str, random: &str) -> (r: String)
    ensures
        r@ == spec_random_copy_name(file_name@, random@),
{
    let (stem, exts) = split_first_dot(file_name);
    String::from_str(stem).concat("_copy_").concat(random).concat(exts)
}

pub open spec fn is_ascii_alphanumeric(c: char) -> bool {
    ('0' <= c && c <= '9') || ('a' <= c && c <= 'z') || ('A' <= c && c <= 'Z')
}

/// Relies on `rand`'s `Alphanumeric` distribution sampled from `thread_rng`:
/// `len` characters, each an ASCII letter or digit.
#[verifier::external_body]
fn random_alphanumeric(len: usize) -> (r: String)
    ensures
        r@.len() == len,
        forall|i: int| 0 <= i < r@.len() ==> is_ascii_alphanumeric(#[trigger] r@[i]),
{
    rand::thread_rng().sample_iter(&rand::distributions::Alphanumeric).take(len).map(
        char::from,
    ).collect()
}

/// Random text.
pub trait StringUtils: Sized {
    /// `length` characters, each an ASCII letter or digit, drawn at random.
    fn random(length: usize) -> (r: Self)
        ensures
            r.view_text().len() == length,
            forall|i: int| 0 <= i < length ==> is_ascii_alphanumeric(#[trigger] r.view_text()[i]),
    ;

    spec fn view_text(&self) -> Seq<char>;
}

impl StringUtils for String {
    fn random(length: usize) -> (r: String) {
        random_alphanumeric(length)
    }

    open spec fn view_text(&self) -> Seq<char> {
        self@
    }
}

/// A randomly named copy of `file_name`: eight ASCII letters or digits after
/// `_copy_`.
pub fn fresh_random_copy_name(file_name: &str) -> (r: String)
    ensures
        exists|random: Seq<char>|
            random.len() == 8 && (forall|i: int|
                0 <= i < 8 ==> is_ascii_alphanumeric(#[trigger] random[i])) && r@
                == spec_random_copy_name(file_name@, random),
{
    let random = <String as StringUtils>::random(RANDOM_NAME_LEN);
    random_copy_name(file_name, random.as_str())
}

} // verus!

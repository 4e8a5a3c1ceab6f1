//! Filesystem paths, held as strings. Joining and taking the parent go
//! through `std::path`.

use vstd::prelude::*;

verus! {

/// The path that `Path::join` gives for `base` and `seg` under the target
/// platform's path rules (separators, absolute paths and prefixes), which
/// the build fixes.
pub uninterp spec fn path_join(base: Seq<char>, seg: Seq<char>) -> Seq<char>;

/// The parent that `Path::parent` gives for `p` under the target
/// platform's path rules (`None` for a root or an empty path).
pub uninterp spec fn path_parent(p: Seq<char>) -> Option<Seq<char>>;

/// `Path::new(base).join(seg)`, rendered as a string (lossless: both are
/// UTF-8). For one build the result depends on the two paths alone; what
/// it is (`base`, a separator, `seg`; or `seg` alone when it is absolute)
/// is left to the name, as the rules differ between platforms.
#[verifier::external_body]
pub(crate) fn join_path(base: &str, seg: &str) -> (r: String)
    ensures
        r@ == path_join(base@, seg@),
{
    std::path::Path::new(base).join(seg).to_string_lossy().into_owned()
}

/// `Path::new(p).parent()`, rendered as a string. For one build the result
/// depends on the path alone; what it is is left to the name, as the rules
/// differ between platforms.
#[verifier::external_body]
pub(crate) fn parent_path(p: &str) -> (r: Option<String>)
    ensures
        match r {
            Some(s) => path_parent(p@) == Some(s@),
            None => path_parent(p@) is None,
        },
{
    std::path::Path::new(p).parent().map(|q| q.to_string_lossy().into_owned())
}

/// `std::path::MAIN_SEPARATOR`, the platform's path separator: `/` on Unix,
/// `\` on Windows.
#[verifier::external_body]
pub(crate) fn main_separator() -> (c: char)
    ensures
        c == '/' || c == '\\',
{
    std::path::MAIN_SEPARATOR
}

} // verus!

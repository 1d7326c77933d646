//! Path handling that the library reads through `std::path`, with each
//! result named as a function of the path text.

use vstd::prelude::*;

use crate::text::opt_view;

verus! {

/// The kinds of `std::path::Component`.
#[derive(Debug, Clone, Copy, PartialEq, Eq, Structural)]
pub enum PathComponentKind {
    Prefix,
    RootDir,
    CurDir,
    ParentDir,
    Normal,
}

/// The component kinds `Path::components` yields for a path.
pub uninterp spec fn path_component_kinds(path: Seq<char>) -> Seq<PathComponentKind>;

/// The final component `Path::file_name` yields for a path, if any.
pub uninterp spec fn file_name_of(path: Seq<char>) -> Option<Seq<char>>;

/// The parent `Path::parent` yields for a path, if any.
pub uninterp spec fn parent_of(path: Seq<char>) -> Option<Seq<char>>;

/// The path `Path::join` yields for a base and one more piece.
pub uninterp spec fn joined(base: Seq<char>, piece: Seq<char>) -> Seq<char>;

/// `Path::components`, each component reduced to its kind.
#[verifier::external_body]
pub fn path_components(path: &str) -> (r: Vec<PathComponentKind>)
    ensures
        r@ == path_component_kinds(path@),
{
    std::path::Path::new(path).components().map(|c| match c {
        std::path::Component::Prefix(_) => PathComponentKind::Prefix,
        std::path::Component::RootDir => PathComponentKind::RootDir,
        std::path::Component::CurDir => PathComponentKind::CurDir,
        std::path::Component::ParentDir => PathComponentKind::ParentDir,
        std::path::Component::Normal(_) => PathComponentKind::Normal,
    }).collect()
}

/// `Path::file_name` of a path given as text; the name of a path given as
/// text is text too.
#[verifier::external_body]
pub fn path_file_name(path: &str) -> (r: Option<String>)
    ensures
        opt_view(r) == file_name_of(path@),
{
    std::path::Path::new(path).file_name().map(|name| name.to_string_lossy().into_owned())
}

/// `Path::parent` of a path given as text.
#[verifier::external_body]
pub fn path_parent(path: &str) -> (r: Option<String>)
    ensures
        opt_view(r) == parent_of(path@),
{
    std::path::Path::new(path).parent().map(|parent| parent.to_string_lossy().into_owned())
}

/// `Path::join` of two path texts.
#[verifier::external_body]
pub fn path_join(base: &str, piece: &str) -> (r: String)
    ensures
        r@ == joined(base@, piece@),
{
    std::path::Path::new(base).join(piece).to_string_lossy().into_owned()
}

/// A name is plain when it is one path component that does not climb to a
/// parent directory.
pub open spec fn plain_name(name: Seq<char>) -> bool {
    path_component_kinds(name).len() == 1 && path_component_kinds(name)[0]
        != PathComponentKind::ParentDir
}

/// Whether a name is one path component that does not climb upward.
pub fn is_plain_name(name: &str) -> (r: bool)
    ensures
        r == plain_name(name@),
{
    let kinds = path_components(name);
    kinds.len() == 1 && kinds[0] != PathComponentKind::ParentDir
}

} // verus!

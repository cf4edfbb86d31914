//! File-system paths as the library sees them.
//!
//! A `PathBuf` is carried through as an opaque value. What the library has to
//! know of one — its components, its file name — is named here and obtained
//! from the standard library; whether a path exists is for the caller to find out.

use std::path::Component;
use std::path::PathBuf;
use vstd::prelude::*;

verus! {

/// `std::path::PathBuf`, which is opaque here.
#[verifier::external_type_specification]
#[verifier::external_body]
pub struct ExPathBuf(PathBuf);

/// The kind of one path component.
#[derive(Clone, Copy, Debug, PartialEq, Eq, Structural)]
pub enum PartKind {
    /// A platform prefix such as a drive letter.
    Prefix,
    /// The root directory.
    RootDir,
    /// `.`
    CurDir,
    /// `..`
    ParentDir,
    /// An ordinary file or directory name.
    Normal,
}

/// One component of a path: its kind and the bytes of its name.
#[derive(Debug)]
pub struct PathPart {
    pub kind: PartKind,
    pub name: Vec<u8>,
}

/// The mathematical value of a [`PathPart`].
pub struct PartModel {
    pub kind: PartKind,
    pub name: Seq<u8>,
}

impl View for PathPart {
    type V = PartModel;

    open spec fn view(&self) -> PartModel {
        PartModel { kind: self.kind, name: self.name@ }
    }
}

/// The views of a list of parts.
pub open spec fn parts_view(parts: Seq<PathPart>) -> Seq<PartModel> {
    parts.map_values(|p: PathPart| p@)
}

/// The text of `path` as `Path::display` shows it: invalid UTF-8 replaced.
pub uninterp spec fn path_text(path: PathBuf) -> Seq<char>;

/// The text of `path` where it is valid UTF-8, as `Path::to_str` gives it.
pub uninterp spec fn utf8_text(path: PathBuf) -> Option<Seq<char>>;

/// The components of `path`, as `Path::components` yields them.
pub uninterp spec fn path_parts(path: PathBuf) -> Seq<PartModel>;

/// The final component of `path` as text, as `Path::file_name` gives it
/// (invalid UTF-8 replaced), or `None` where the path ends in `..` or is a root.
pub uninterp spec fn file_name_text(path: PathBuf) -> Option<Seq<char>>;

/// The extension of `path` as text, as `Path::extension` gives it, where it is valid UTF-8.
pub uninterp spec fn extension_text(path: PathBuf) -> Option<Seq<char>>;

/// The path that `Path::join` makes of `base` and the relative or absolute `name`.
pub uninterp spec fn joined(base: PathBuf, name: Seq<char>) -> PathBuf;

/// The path that `Path::with_extension` makes of `path` and `extension`.
pub uninterp spec fn with_extension(path: PathBuf, extension: Seq<char>) -> PathBuf;

/// The path that `PathBuf::from` makes of `text`.
pub uninterp spec fn path_of(text: Seq<char>) -> PathBuf;

/// `PathBuf::clone` returns an equal path.
pub assume_specification[ <PathBuf as Clone>::clone ](path: &PathBuf) -> (copy: PathBuf)
    ensures
        copy == *path,
;

/// `Path::components`: the components of the path in order, each with the
/// encoded bytes of its name.
#[verifier::external_body]
pub(crate) fn components(path: &PathBuf) -> (parts: Vec<PathPart>)
    ensures
        parts_view(parts@) == path_parts(*path),
{
    let mut parts = Vec::new();
    for c in path.components() {
        let kind = match c {
            Component::Prefix(_) => PartKind::Prefix,
            Component::RootDir => PartKind::RootDir,
            Component::CurDir => PartKind::CurDir,
            Component::ParentDir => PartKind::ParentDir,
            Component::Normal(_) => PartKind::Normal,
        };
        parts.push(PathPart { kind, name: c.as_os_str().as_encoded_bytes().to_vec() });
    }
    parts
}

/// `Path::file_name`, rendered as text.
#[verifier::external_body]
pub(crate) fn file_name(path: &PathBuf) -> (name: Option<String>)
    ensures
        name.is_some() == file_name_text(*path).is_some(),
        name matches Some(n) ==> n@ == file_name_text(*path).unwrap(),
{
    path.file_name().map(|f| f.to_string_lossy().into_owned())
}

/// `Path::extension`, as text where it is valid UTF-8.
#[verifier::external_body]
pub(crate) fn extension(path: &PathBuf) -> (ext: Option<String>)
    ensures
        ext.is_some() == extension_text(*path).is_some(),
        ext matches Some(e) ==> e@ == extension_text(*path).unwrap(),
{
    path.extension().and_then(|e| e.to_str()).map(|e| e.to_string())
}

/// `Path::to_str`: the text of the path, where it is valid UTF-8.
#[verifier::external_body]
pub(crate) fn path_to_str(path: &PathBuf) -> (text: Option<String>)
    ensures
        text.is_some() == utf8_text(*path).is_some(),
        text matches Some(t) ==> t@ == utf8_text(*path).unwrap(),
{
    path.to_str().map(|t| t.to_string())
}

/// `Path::join`.
#[verifier::external_body]
pub(crate) fn join(base: &PathBuf, name: &str) -> (path: PathBuf)
    ensures
        path == joined(*base, name@),
{
    base.join(name)
}

/// Whether `c` separates the components of a path on some platform.
pub open spec fn is_separator(c: char) -> bool {
    c == '/' || c == '\\'
}

/// `Path::with_extension`, for an extension without a path separator.
#[verifier::external_body]
pub(crate) fn replace_extension(path: &PathBuf, extension: &str) -> (out: PathBuf)
    requires
        forall|i: int| 0 <= i < extension@.len() ==> !is_separator(#[trigger] extension@[i]),
    ensures
        out == with_extension(*path, extension@),
{
    path.with_extension(extension)
}

/// `PathBuf::from` for text.
#[verifier::external_body]
pub(crate) fn path_from(text: &str) -> (path: PathBuf)
    ensures
        path == path_of(text@),
{
    PathBuf::from(text)
}

} // verus!

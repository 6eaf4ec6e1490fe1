//! File-system paths, carried as opaque values.

use vstd::prelude::*;

verus! {

/// `std::path::PathBuf`, carried as an opaque value.
#[verifier::external_type_specification]
#[verifier::external_body]
pub struct ExPathBuf(std::path::PathBuf);

/// The path that `PathBuf::from` makes of a text.
pub uninterp spec fn path_of(text: Seq<char>) -> std::path::PathBuf;

/// The path that `Path::join` makes of `base` and `relative`: `relative`
/// adjoined to `base`, or `relative` alone when it is absolute.
pub uninterp spec fn joined(base: std::path::PathBuf, relative: Seq<char>) -> std::path::PathBuf;

/// The last component of `path` as `Path::file_name` finds it, lossily
/// decoded; nothing where the path has no last component, as the root and
/// a path that ends in `..` have none.
pub uninterp spec fn file_name_of(path: std::path::PathBuf) -> Option<Seq<char>>;

/// `PathBuf::from`: the path that `text` spells.
#[verifier::external_body]
pub(crate) fn path_from(text: &str) -> (path: std::path::PathBuf)
    ensures
        path == path_of(text@),
{
    std::path::PathBuf::from(text)
}

/// `Path::join`: `relative` below `base`, or `relative` alone when it is
/// absolute.
#[verifier::external_body]
pub(crate) fn path_join(base: &std::path::PathBuf, relative: &str) -> (path: std::path::PathBuf)
    ensures
        path == joined(*base, relative@),
{
    base.join(relative)
}

/// `Path::exists`: whether something is at the path right now.
#[verifier::external_body]
pub(crate) fn path_exists(path: &std::path::PathBuf) -> (b: bool) {
    path.exists()
}

/// `Path::to_string_lossy`, owned.
#[verifier::external_body]
pub(crate) fn path_text(path: &std::path::PathBuf) -> (text: String) {
    path.to_string_lossy().to_string()
}

/// `Path::file_name`, lossily decoded: the last component of the path, if
/// it has one. The result depends on the path alone and goes by the name
/// `file_name_of`.
#[verifier::external_body]
pub(crate) fn path_file_name(path: &std::path::PathBuf) -> (name: Option<String>)
    ensures
        match name {
            Some(text) => file_name_of(*path) == Some(text@),
            None => file_name_of(*path) is None,
        },
{
    path.file_name().map(|name| name.to_string_lossy().to_string())
}

/// `dirs::config_dir`: the directory for the user's configuration files,
/// as the environment gives it; nothing when it gives none.
#[verifier::external_body]
pub(crate) fn user_config_dir() -> (path: Option<std::path::PathBuf>) {
    dirs::config_dir()
}

/// `dirs::home_dir`: the user's home directory, as the environment gives
/// it; nothing when it gives none.
#[verifier::external_body]
pub(crate) fn user_home_dir() -> (path: Option<std::path::PathBuf>) {
    dirs::home_dir()
}

} // verus!

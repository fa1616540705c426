use vstd::prelude::*;

use crate::error::{outcome_view, BuildError, BuildErrorView};
use crate::paths::{extension_of, join_path, joined_path, path_extension};

verus! {

/// One entry of a directory listing.
#[derive(Clone, Debug)]
pub struct DirEntry {
    /// The entry's path; a lossy rendering when it is not valid UTF-8.
    pub path: String,
    /// Whether the path is valid UTF-8, so that `path` is exact.
    pub is_utf8: bool,
    /// Whether the entry is a regular file.
    pub is_file: bool,
}

/// The extension that a built contract carries.
pub open spec fn artifact_extension() -> Seq<char> {
    "wasm"@
}

/// A regular file with the artifact extension.
pub open spec fn is_artifact(e: DirEntry) -> bool {
    e.is_file && extension_of(e.path@) == Some(artifact_extension())
}

/// The outcome of looking for the artifact among `entries`, listed from
/// `dir`: the first artifact in listing order wins; its path must be exact.
pub open spec fn locate(dir: Seq<char>, entries: Seq<DirEntry>) -> Result<
    Seq<char>,
    BuildErrorView,
>
    decreases entries.len(),
{
    if entries.len() == 0 {
        Err(BuildErrorView::ArtifactNotFound { dir })
    } else if is_artifact(entries[0]) {
        if entries[0].is_utf8 {
            Ok(entries[0].path@)
        } else {
            Err(BuildErrorView::PathConversionFailure { raw: entries[0].path@ })
        }
    } else {
        locate(dir, entries.drop_first())
    }
}

/// The directory that the container build writes its artifact to.
pub open spec fn artifact_dir_spec(root: Seq<char>) -> Seq<char> {
    joined_path(joined_path(root, "target"@), "near"@)
}

/// The directory that the container build writes its artifact to:
/// `<root>/target/near`.
pub fn artifact_dir(root: &str) -> (r: String)
    ensures
        r@ == artifact_dir_spec(root@),
{
    let target = join_path(root, "target");
    join_path(target.as_str(), "near")
}

/// Whether `e` is a regular file with the artifact extension.
pub fn entry_is_artifact(e: &DirEntry) -> (r: bool)
    ensures
        r == is_artifact(*e),
{
    if !e.is_file {
        return false;
    }
    match path_extension(e.path.as_str()) {
        Some(ext) => {
            let wasm = "wasm".to_owned();
            ext == wasm
        },
        None => false,
    }
}

/// Finds the artifact among the entries listed from `dir`: the first
/// regular file, in listing order, whose extension is `wasm`.
pub fn find_artifact(dir: &String, entries: &Vec<DirEntry>) -> (r: Result<String, BuildError>)
    ensures
        outcome_view(r) == locate(dir@, entries@),
{
    let mut i: usize = 0;
    assert(entries@.skip(0) =~= entries@);
    while i < entries.len()
        invariant
            i <= entries@.len(),
            locate(dir@, entries@.skip(i as int)) == locate(dir@, entries@),
        decreases entries@.len() - i,
    {
        assert(entries@.skip(i as int)[0] == entries@[i as int]);
        let e = &entries[i];
        if entry_is_artifact(e) {
            if e.is_utf8 {
                return Ok(e.path.clone());
            } else {
                return Err(BuildError::PathConversionFailure { raw: e.path.clone() });
            }
        }
        assert(entries@.skip(i as int).drop_first() =~= entries@.skip(i + 1));
        i = i + 1;
    }
    Err(BuildError::ArtifactNotFound { dir: dir.clone() })
}

} // verus!

use vstd::prelude::*;

verus! {

/// The path that `part` adjoined to `base` gives.
pub uninterp spec fn joined_path(base: Seq<char>, part: Seq<char>) -> Seq<char>;

/// The extension of the path's file name, if it has one.
pub uninterp spec fn extension_of(path: Seq<char>) -> Option<Seq<char>>;

/// Relies on `camino::Utf8PathBuf::push`: adjoins `part` to `base`.
#[verifier::external_body]
pub(crate) fn join_path(base: &str, part: &str) -> (r: String)
    ensures
        r@ == joined_path(base@, part@),
{
    let mut p = camino::Utf8PathBuf::from(base);
    p.push(part);
    p.into_string()
}

/// Relies on `camino::Utf8Path::extension`: the part of the file name after
/// its last `.`, if any.
#[verifier::external_body]
pub(crate) fn path_extension(path: &str) -> (r: Option<String>)
    ensures
        match r {
            Some(e) => extension_of(path@) == Some(e@),
            None => extension_of(path@) is None,
        },
{
    camino::Utf8Path::new(path).extension().map(str::to_owned)
}

} // verus!

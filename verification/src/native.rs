//! Fetching an asset on native builds: from the `assets/` folder next to the
//! executable first, and from the `assets/` folder of the manifest directory
//! when that fails.  The reading itself is done by the caller; this module
//! says where to read, in which order, and what the reads' outcomes become.
use vstd::prelude::*;

use crate::error::{outcome_view, AssetFetchError, AssetFetchErrorView};
use crate::web::web_fetch_outcome;

verus! {

/// The path that `std::path::Path::join` makes of `base` and `part`, written
/// as a string.  `Path::join` reads neither the environment nor the file
/// system: its result is fixed by its two arguments and by the path rules of
/// the platform the crate is built for (its separator, what counts as an
/// absolute path, and on Windows prefixes and verbatim paths).
pub uninterp spec fn joined_path(base: Seq<char>, part: Seq<char>) -> Seq<char>;

/// `std::path::Path::join`: `part` adjoined to `base`, written back as a
/// string (empty if the joined path were not valid UTF-8, which cannot happen
/// for paths made of `&str`s).  The contract claims only that the result is
/// `joined_path` of the two arguments; what that path is, is not stated.
#[verifier::external_body]
fn path_join(base: &str, part: &str) -> (joined: String)
    ensures
        joined@ == joined_path(base@, part@),
{
    std::path::Path::new(base).join(part).to_str().unwrap_or_default().to_string()
}

/// The file under which a native build keeps the asset `relative_path`:
/// the `assets` folder of `manifest_dir`, with `relative_path` joined to it.
pub open spec fn asset_file_path(manifest_dir: Seq<char>, relative_path: Seq<char>) -> Seq<char> {
    joined_path(joined_path(manifest_dir, "assets"@), relative_path)
}

/// The file at which a native build looks for the asset `relative_path`:
/// `relative_path` under the `assets` folder of `manifest_dir`, joined by the
/// platform's path rules.
pub fn native_asset_path(manifest_dir: &str, relative_path: &str) -> (p: String)
    ensures
        p@ == asset_file_path(manifest_dir@, relative_path@),
        p@ == joined_path(joined_path(manifest_dir@, "assets"@), relative_path@),
{
    let assets = path_join(manifest_dir, "assets");
    path_join(assets.as_str(), relative_path)
}

/// What a native fetch returns, given the bytes read from `path` (or `None`
/// if the file could not be read).
pub open spec fn native_fetch_outcome(path: Seq<char>, contents: Option<Seq<u8>>) -> Result<
    Seq<u8>,
    AssetFetchErrorView,
> {
    match contents {
        Some(bytes) => Ok(bytes),
        None => Err(AssetFetchErrorView::PathFailure { path }),
    }
}

/// The outcome of reading the asset file at `path`: its bytes, or a
/// `PathFailure` that names `path`.
pub fn native_read_outcome(path: String, contents: Option<Vec<u8>>) -> (r: Result<
    Vec<u8>,
    AssetFetchError,
>)
    ensures
        outcome_view(r) == native_fetch_outcome(
            path@,
            match contents {
                Some(bytes) => Some(bytes@),
                None => None,
            },
        ),
{
    match contents {
        Some(bytes) => Ok(bytes),
        None => Err(AssetFetchError::PathFailure { path }),
    }
}

/// The bytes read from a file, by their view (`None` if it could not be read).
pub open spec fn read_view(contents: Option<Vec<u8>>) -> Option<Seq<u8>> {
    match contents {
        Some(bytes) => Some(bytes@),
        None => None,
    }
}

/// The files a native build tries for the asset `relative_path`, in order:
/// under the `assets` folder next to the executable (in `exe_dir`), then
/// under the `assets` folder of `manifest_dir`.
pub fn native_asset_candidates(exe_dir: &str, manifest_dir: &str, relative_path: &str) -> (c: Vec<
    String,
>)
    ensures
        c@.len() == 2,
        c@[0]@ == asset_file_path(exe_dir@, relative_path@),
        c@[1]@ == asset_file_path(manifest_dir@, relative_path@),
        c@[0]@ == joined_path(joined_path(exe_dir@, "assets"@), relative_path@),
        c@[1]@ == joined_path(joined_path(manifest_dir@, "assets"@), relative_path@),
{
    let mut c: Vec<String> = Vec::new();
    c.push(native_asset_path(exe_dir, relative_path));
    c.push(native_asset_path(manifest_dir, relative_path));
    c
}

/// What a native fetch returns, given what was read next to the executable
/// and what was read at `manifest_path`: the first bytes that could be read,
/// or a `PathFailure` naming `manifest_path` when neither could.
pub open spec fn native_lookup_outcome(
    beside_exe: Option<Seq<u8>>,
    manifest_path: Seq<char>,
    in_manifest: Option<Seq<u8>>,
) -> Result<Seq<u8>, AssetFetchErrorView> {
    match beside_exe {
        Some(bytes) => Ok(bytes),
        None => native_fetch_outcome(manifest_path, in_manifest),
    }
}

/// The outcome of a native fetch: the bytes read next to the executable if
/// there were any, else those read at `manifest_path`, else a `PathFailure`
/// that names `manifest_path`.
pub fn native_lookup_result(
    beside_exe: Option<Vec<u8>>,
    manifest_path: String,
    in_manifest: Option<Vec<u8>>,
) -> (r: Result<Vec<u8>, AssetFetchError>)
    ensures
        outcome_view(r) == native_lookup_outcome(
            read_view(beside_exe),
            manifest_path@,
            read_view(in_manifest),
        ),
{
    match beside_exe {
        Some(bytes) => Ok(bytes),
        None => native_read_outcome(manifest_path, in_manifest),
    }
}

/// The assets shipped next to the executable come first: when they can be
/// read, they are what a native fetch returns, whatever lies under the
/// manifest directory; only when they cannot does the manifest directory's
/// copy decide the outcome.
pub proof fn lemma_executable_assets_first(
    bytes: Seq<u8>,
    manifest_path: Seq<char>,
    in_manifest: Option<Seq<u8>>,
)
    ensures
        native_lookup_outcome(Some(bytes), manifest_path, in_manifest) == Ok::<
            Seq<u8>,
            AssetFetchErrorView,
        >(bytes),
        native_lookup_outcome(None, manifest_path, in_manifest) == native_fetch_outcome(
            manifest_path,
            in_manifest,
        ),
{
}

/// A fetch works the same way on native and web builds: an asset that cannot
/// be reached at all gives a `PathFailure` naming the path that was tried, and
/// an asset that is reached gives its bytes unchanged.
pub proof fn lemma_native_and_web_agree(
    path: Seq<char>,
    bytes: Seq<u8>,
    status: u16,
    body: Option<Seq<u8>>,
)
    ensures
        native_fetch_outcome(path, None) == web_fetch_outcome(path, None, body),
        native_fetch_outcome(path, Some(bytes)) == web_fetch_outcome(
            path,
            Some((true, status)),
            Some(bytes),
        ),
{
}

/// An asset's file is always looked up inside the `assets` folder: for
/// every base directory and every relative path, whatever its length, the
/// path is the relative path joined onto the base joined with `assets`.
pub proof fn lemma_asset_file_is_in_assets_folder(b: Seq<char>, r: Seq<char>)
    ensures
        asset_file_path(b, r) == joined_path(joined_path(b, "assets"@), r),
{
}

} // verus!

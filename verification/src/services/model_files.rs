//! Where the model file is looked for.
//!
//! The model is, by convention, the first file with the extension `bin` in
//! the directory `.cyrano/models` under the user's home directory. Reading
//! the directory is left to the caller; choosing among its entries is done
//! here.

use crate::domain::{CyranoError, ErrorView};
use vstd::prelude::*;
use vstd::string::{StrSliceExecFns, StringExecFns};

verus! {

/// What the caller found when it read a directory, each entry given by its
/// full path, in the order in which the directory was walked.
pub enum DirectoryListing {
    /// The directory does not exist.
    Missing,
    /// The directory exists but could not be read.
    Unreadable { reason: String },
    /// The entries of the directory.
    Entries { paths: Vec<String> },
}

/// Text of the path with which a missing home directory is reported.
pub open spec fn unresolved_home() -> Seq<char> {
    "~/.cyrano/models/ (could not resolve home directory)"@
}

/// `base` extended by the relative path `component`, with `/` as separator.
pub open spec fn joined_path(base: Seq<char>, component: Seq<char>) -> Seq<char> {
    if base.len() == 0 || base.last() == '/' {
        base + component
    } else {
        base + seq!['/'] + component
    }
}

/// The models directory under the home directory `home`.
pub open spec fn models_directory_under(home: Seq<char>) -> Seq<char> {
    joined_path(joined_path(home, ".cyrano"@), "models"@)
}

/// What resolving the models directory comes to, given the home directory:
/// the models directory under it, or `ModelNotFound` where there is none.
pub open spec fn models_directory_resolved(
    home: Option<Seq<char>>,
    resolved: Result<String, CyranoError>,
) -> bool {
    match home {
        Some(home) => resolved matches Ok(directory) && directory@ == models_directory_under(home),
        None => resolved matches Err(error) && error@ == (ErrorView::ModelNotFound {
            path: unresolved_home(),
        }),
    }
}

/// Whether the file name of `path` has the extension `bin`: the path ends in
/// `.bin` and the file name does not begin there.
pub open spec fn has_model_extension(path: Seq<char>) -> bool {
    &&& path.len() >= 5
    &&& path.subrange(path.len() - 4, path.len() as int) == ".bin"@
    &&& path[path.len() - 5] != '/'
}

/// The texts of the given paths.
pub open spec fn path_texts(paths: Seq<String>) -> Seq<Seq<char>> {
    paths.map_values(|path: String| path@)
}

/// Whether `index` is the place of the first of `paths` that has the model
/// extension.
pub open spec fn is_first_model(paths: Seq<Seq<char>>, index: int) -> bool {
    &&& 0 <= index < paths.len()
    &&& has_model_extension(paths[index])
    &&& forall|earlier: int| 0 <= earlier < index ==> !has_model_extension(#[trigger] paths[earlier])
}

/// The place of the first of `paths` that has the model extension, if any
/// has.
pub open spec fn first_model(paths: Seq<Seq<char>>) -> Option<int> {
    if exists|index: int| is_first_model(paths, index) {
        Some(choose|index: int| is_first_model(paths, index))
    } else {
        None
    }
}

/// What looking for the model in the directory `directory` comes to, given
/// what reading the directory found: the first entry with the model
/// extension, or `ModelNotFound` with a path that tells why.
pub open spec fn model_located(
    directory: Seq<char>,
    listing: DirectoryListing,
    located: Result<String, CyranoError>,
) -> bool {
    match listing {
        DirectoryListing::Missing => located matches Err(error) && error@ == (
        ErrorView::ModelNotFound { path: directory }),
        DirectoryListing::Unreadable { reason } => located matches Err(error) && error@ == (
        ErrorView::ModelNotFound { path: directory + ": "@ + reason@ }),
        DirectoryListing::Entries { paths } => match first_model(path_texts(paths@)) {
            Some(index) => located matches Ok(path) && path@ == path_texts(paths@)[index],
            None => located matches Err(error) && error@ == (ErrorView::ModelNotFound {
                path: directory + " (no .bin files found)"@,
            }),
        },
    }
}

/// `dirs::home_dir`: the home directory of the current user, if the platform
/// can tell it, as text; what is not valid UTF-8 in it is replaced, as
/// `to_string_lossy` does. It depends on the environment, so nothing is
/// claimed of it.
#[verifier::external_body]
fn home_directory() -> Option<String> {
    match dirs::home_dir() {
        Some(home) => Some(home.to_string_lossy().into_owned()),
        None => None,
    }
}

/// Extends `base` by the relative path `component`.
pub fn join_path(base: &str, component: &str) -> (joined: String)
    ensures
        joined@ == joined_path(base@, component@),
{
    let len = base.unicode_len();
    let mut joined = String::from_str(base);
    if len > 0 && base.get_char(len - 1) != '/' {
        proof {
            reveal_strlit("/");
        }
        joined.append("/");
        assert("/"@ =~= seq!['/']);
    }
    joined.append(component);
    joined
}

/// The models directory under the given home directory; `ModelNotFound`
/// where the home directory is unknown.
pub fn models_directory_in(home: Option<String>) -> (resolved: Result<String, CyranoError>)
    ensures
        models_directory_resolved(
            match home {
                Some(home) => Some(home@),
                None => None,
            },
            resolved,
        ),
{
    match home {
        Some(home) => {
            let application = join_path(home.as_str(), ".cyrano");
            Ok(join_path(application.as_str(), "models"))
        },
        None => Err(
            CyranoError::ModelNotFound {
                path: String::from_str("~/.cyrano/models/ (could not resolve home directory)"),
            },
        ),
    }
}

/// Get the path to the models directory.
pub fn get_models_directory() -> (resolved: Result<String, CyranoError>)
    ensures
        exists|home: Option<Seq<char>>| #[trigger] models_directory_resolved(home, resolved),
{
    let home = home_directory();
    let resolved = models_directory_in(home);
    assert(models_directory_resolved(
        match home {
            Some(home) => Some(home@),
            None => None,
        },
        resolved,
    ));
    resolved
}

/// Whether the file name of `path` has the extension `bin`.
pub fn has_bin_extension(path: &str) -> (found: bool)
    ensures
        found == has_model_extension(path@),
{
    let len = path.unicode_len();
    if len < 5 {
        return false;
    }
    proof {
        reveal_strlit(".bin");
    }
    let ending = path.get_char(len - 4) == '.' && path.get_char(len - 3) == 'b' && path.get_char(
        len - 2,
    ) == 'i' && path.get_char(len - 1) == 'n';
    let ghost tail = path@.subrange(len - 4, len as int);
    assert(ending == (tail =~= ".bin"@)) by {
        assert(tail[0] == path@[len - 4]);
        assert(tail[1] == path@[len - 3]);
        assert(tail[2] == path@[len - 2]);
        assert(tail[3] == path@[len - 1]);
    }
    ending && path.get_char(len - 5) != '/'
}

/// Chooses the model file among what reading the models directory found.
pub fn select_model_file(directory: &str, listing: &DirectoryListing) -> (located: Result<
    String,
    CyranoError,
>)
    ensures
        model_located(directory@, *listing, located),
{
    match listing {
        DirectoryListing::Missing => Err(
            CyranoError::ModelNotFound { path: String::from_str(directory) },
        ),
        DirectoryListing::Unreadable { reason } => {
            let mut path = String::from_str(directory);
            path.append(": ");
            path.append(reason.as_str());
            Err(CyranoError::ModelNotFound { path })
        },
        DirectoryListing::Entries { paths } => {
            let ghost texts = path_texts(paths@);
            let mut index: usize = 0;
            while index < paths.len()
                invariant
                    index <= paths.len(),
                    *listing == (DirectoryListing::Entries { paths: *paths }),
                    texts == path_texts(paths@),
                    forall|earlier: int|
                        0 <= earlier < index ==> !has_model_extension(#[trigger] texts[earlier]),
                decreases paths.len() - index,
            {
                assert(texts[index as int] == paths@[index as int]@);
                if has_bin_extension(paths[index].as_str()) {
                    let path = paths[index].clone();
                    assert(is_first_model(texts, index as int));
                    assert(first_model(texts) == Some(index as int));
                    return Ok(path);
                }
                index += 1;
            }
            assert(first_model(texts) is None);
            let mut path = String::from_str(directory);
            path.append(" (no .bin files found)");
            Err(CyranoError::ModelNotFound { path })
        },
    }
}

/// Find the first `.bin` model file in the models directory. `list` reads
/// the directory whose path it is given.
pub fn get_model_path<F: FnOnce(&str) -> DirectoryListing>(list: F) -> (located: Result<
    String,
    CyranoError,
>)
    requires
        forall|directory: &str| call_requires(list, (directory,)),
    ensures
        exists|home: Option<Seq<char>>, resolved: Result<String, CyranoError>| #[trigger]
            models_directory_resolved(home, resolved) && match resolved {
                Err(error) => located == Err::<String, CyranoError>(error),
                Ok(directory) => exists|asked: &str, listing: DirectoryListing|
                    {
                        &&& asked@ == directory@
                        &&& #[trigger] call_ensures(list, (asked,), listing)
                        &&& model_located(directory@, listing, located)
                    },
            },
{
    let resolved = get_models_directory();
    match resolved {
        Err(error) => Err(error),
        Ok(directory) => {
            let asked = directory.as_str();
            let listing = list(asked);
            let located = select_model_file(asked, &listing);
            assert(call_ensures(list, (asked,), listing));
            located
        },
    }
}

} // verus!

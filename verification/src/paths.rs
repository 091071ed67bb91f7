use crate::credentials::{Credentials, IdentityTuple};
use vstd::prelude::*;
use vstd::string::*;

verus! {

/// The directory under which every image is kept.
pub const IMAGES_ROOT: &'static str = "images/";

/// What separates the parts of a path, and ends a directory's name.
pub const SEPARATOR: &'static str = "/";

/// The ending of a normalised image's file name.
pub const EXTENSION: &'static str = ".webp";

/// The directory of an identity: `images/<organization>/<username>/<mission>/`.
pub open spec fn directory_of(who: IdentityTuple) -> Seq<char> {
    IMAGES_ROOT@ + who.organization + SEPARATOR@ + who.username + SEPARATOR@ + who.mission
        + SEPARATOR@
}

/// The file of an image in its directory: `<directory><id>.webp`.
pub open spec fn file_of(directory: Seq<char>, id: Seq<char>) -> Seq<char> {
    directory + id + EXTENSION@
}

/// The directory in which the images of an identity are stored.
pub fn destination_dir(identity: &Credentials) -> (directory: String)
    ensures
        directory@ == directory_of(identity.tuple()),
{
    let mut directory = String::from_str(IMAGES_ROOT);
    directory.append(identity.organization.as_str());
    directory.append(SEPARATOR);
    directory.append(identity.username.as_str());
    directory.append(SEPARATOR);
    directory.append(identity.mission.as_str());
    directory.append(SEPARATOR);
    directory
}

/// The path of an image's file. It depends on the directory and the id alone.
pub fn image_path(directory: &str, id: &str) -> (path: String)
    ensures
        path@ == file_of(directory@, id@),
{
    let mut path = String::from_str(directory);
    path.append(id);
    path.append(EXTENSION);
    path
}

/// Two images of one directory lie in one file only if they have one id.
pub proof fn distinct_ids_give_distinct_files(directory: Seq<char>, a: Seq<char>, b: Seq<char>)
    requires
        file_of(directory, a) == file_of(directory, b),
    ensures
        a == b,
{
    let left = file_of(directory, a);
    let right = file_of(directory, b);
    let n = directory.len() as int;
    assert(left.len() == n + a.len() + EXTENSION@.len());
    assert(right.len() == n + b.len() + EXTENSION@.len());
    assert forall|i: int| 0 <= i < a.len() implies a[i] == b[i] by {
        assert(left[n + i] == a[i]);
        assert(right[n + i] == b[i]);
    }
    assert(a =~= b);
}

} // verus!

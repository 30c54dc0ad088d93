//! The pointers of a linked worktree: from the worktree to its administrative directory, and from
//! there to the repository's shared `.git`.

use crate::error::{failure, fault, Failure, SodagunError};
use crate::path::{join, join_path};
use crate::text::{has_prefix, part, starts_with, trim, trim_text};
use vstd::prelude::*;

verus! {

/// What `commondir` is made to hold: the administrative directory is always two levels below the
/// shared `.git`, so that this works wherever the repository is mounted.
pub const COMMONDIR_POINTER: &'static str = "../..\n";

/// An error about git's files.
fn invalid(message: String) -> (e: SodagunError)
    ensures
        e@ == failure("GIT_ERROR"@, message@),
{
    fault("GIT_ERROR", message)
}

/// The administrative directory that a worktree's `.git` file points to.
pub open spec fn admin_pointed_to(worktree: Seq<char>, dotgit: Result<String, String>) -> Result<
    Seq<char>,
    Failure,
> {
    let file = join(worktree, ".git"@);
    match dotgit {
        Err(why) => Err(
            failure(
                "GIT_ERROR"@,
                "cannot read "@ + file + " (is this a linked worktree?): "@ + why@,
            ),
        ),
        Ok(content) => if starts_with(content@, "gitdir:"@) {
            Ok(join(worktree, trim(content@.skip(7))))
        } else {
            Err(failure("GIT_ERROR"@, file + " has no gitdir pointer"@))
        },
    }
}

/// The administrative directory of a worktree, in canonical form.
pub open spec fn admin_meant(
    worktree: Seq<char>,
    dotgit: Result<String, String>,
    canonical: Result<String, String>,
) -> Result<Seq<char>, Failure> {
    match admin_pointed_to(worktree, dotgit) {
        Err(e) => Err(e),
        Ok(admin) => match canonical {
            Ok(c) => Ok(c@),
            Err(why) => Err(
                failure("GIT_ERROR"@, "worktree admin dir "@ + admin + ": "@ + why@),
            ),
        },
    }
}

/// The shared `.git` that an administrative directory's `commondir` points to.
pub open spec fn common_pointed_to(admin: Seq<char>, commondir: Result<String, String>) -> Result<
    Seq<char>,
    Failure,
> {
    match commondir {
        Err(why) => Err(
            failure("GIT_ERROR"@, "cannot read "@ + join(admin, "commondir"@) + ": "@ + why@),
        ),
        Ok(content) => Ok(join(admin, trim(content@))),
    }
}

/// The shared `.git`, in canonical form.
pub open spec fn common_meant(
    admin: Seq<char>,
    commondir: Result<String, String>,
    canonical: Result<String, String>,
) -> Result<Seq<char>, Failure> {
    match common_pointed_to(admin, commondir) {
        Err(e) => Err(e),
        Ok(common) => match canonical {
            Ok(c) => Ok(c@),
            Err(why) => Err(failure("GIT_ERROR"@, "git common dir "@ + common + ": "@ + why@)),
        },
    }
}

/// Whether a result is the one that a model says.
pub open spec fn gives_path(
    r: Result<String, SodagunError>,
    m: Result<Seq<char>, Failure>,
) -> bool {
    match r {
        Ok(p) => m == Ok::<Seq<char>, Failure>(p@),
        Err(e) => m == Err::<Seq<char>, Failure>(e@),
    }
}

/// The path, yet to be made canonical, that a worktree's `.git` file points to; `dotgit` is what
/// that file holds.
pub fn admin_pointer(worktree: &str, dotgit: &Result<String, String>) -> (r: Result<
    String,
    SodagunError,
>)
    ensures
        gives_path(r, admin_pointed_to(worktree@, *dotgit)),
{
    let file = join_path(worktree, ".git");
    match dotgit {
        Err(why) => Err(
            invalid(
                "cannot read ".to_owned().concat(file.as_str()).concat(
                    " (is this a linked worktree?): ",
                ).concat(why.as_str()),
            ),
        ),
        Ok(content) => {
            if has_prefix(content.as_str(), "gitdir:") {
                proof {
                    reveal_strlit("gitdir:");
                    assert(content@.subrange(7, content@.len() as int) =~= content@.skip(7));
                }
                let pointer = trim_text(
                    part(content.as_str(), 7, content.as_str().unicode_len()).as_str(),
                );
                Ok(join_path(worktree, pointer.as_str()))
            } else {
                Err(invalid(file.concat(" has no gitdir pointer")))
            }
        },
    }
}

/// The administrative directory of a worktree; `canonical` is the canonical form of
/// [`admin_pointer`].
pub fn worktree_admin_dir(
    worktree: &str,
    dotgit: &Result<String, String>,
    canonical: Result<String, String>,
) -> (r: Result<String, SodagunError>)
    ensures
        gives_path(r, admin_meant(worktree@, *dotgit, canonical)),
{
    let admin = match admin_pointer(worktree, dotgit) {
        Ok(a) => a,
        Err(e) => return Err(e),
    };
    match canonical {
        Ok(c) => Ok(c),
        Err(why) => Err(
            invalid(
                "worktree admin dir ".to_owned().concat(admin.as_str()).concat(": ").concat(
                    why.as_str(),
                ),
            ),
        ),
    }
}

/// The path, yet to be made canonical, that an administrative directory's `commondir` file points
/// to; `commondir` is what that file holds.
pub fn common_pointer(admin: &str, commondir: &Result<String, String>) -> (r: Result<
    String,
    SodagunError,
>)
    ensures
        gives_path(r, common_pointed_to(admin@, *commondir)),
{
    match commondir {
        Err(why) => Err(
            invalid(
                "cannot read ".to_owned().concat(join_path(admin, "commondir").as_str()).concat(
                    ": ",
                ).concat(why.as_str()),
            ),
        ),
        Ok(content) => Ok(join_path(admin, trim_text(content.as_str()).as_str())),
    }
}

/// The shared `.git` of an administrative directory; `canonical` is the canonical form of
/// [`common_pointer`].
pub fn common_git_dir(
    admin: &str,
    commondir: &Result<String, String>,
    canonical: Result<String, String>,
) -> (r: Result<String, SodagunError>)
    ensures
        gives_path(r, common_meant(admin@, *commondir, canonical)),
{
    let common = match common_pointer(admin, commondir) {
        Ok(c) => c,
        Err(e) => return Err(e),
    };
    match canonical {
        Ok(c) => Ok(c),
        Err(why) => Err(
            invalid(
                "git common dir ".to_owned().concat(common.as_str()).concat(": ").concat(
                    why.as_str(),
                ),
            ),
        ),
    }
}

/// Where [`COMMONDIR_POINTER`] is to be written.
pub fn commondir_file(admin: &str) -> (r: String)
    ensures
        r@ == join(admin@, "commondir"@),
{
    join_path(admin, "commondir")
}

/// The result of writing [`COMMONDIR_POINTER`].
pub fn normalize_commondir(admin: &str, written: &Result<(), String>) -> (r: Result<
    (),
    SodagunError,
>)
    ensures
        match (*written, r) {
            (Ok(()), Ok(())) => true,
            (Err(why), Err(e)) => e@ == failure(
                "GIT_ERROR"@,
                "cannot write "@ + join(admin@, "commondir"@) + ": "@ + why@,
            ),
            _ => false,
        },
{
    match written {
        Ok(()) => Ok(()),
        Err(why) => Err(
            invalid(
                "cannot write ".to_owned().concat(commondir_file(admin).as_str()).concat(
                    ": ",
                ).concat(why.as_str()),
            ),
        ),
    }
}

/// After normalization the shared `.git` is looked for two levels above the administrative
/// directory, wherever that is.
pub proof fn law_normalized_pointer_is_relative(admin: Seq<char>, content: String)
    requires
        content@ == COMMONDIR_POINTER@,
    ensures
        common_pointed_to(admin, Ok(content)) == Ok::<Seq<char>, Failure>(
            join(admin, "../.."@),
        ),
{
    reveal_strlit("../..\n");
    reveal_strlit("../..");
    let c = content@;
    assert(c.len() == 6);
    assert(crate::text::trim_start(c) == c);
    assert(c.drop_last() =~= "../.."@);
    assert(crate::text::trim_end(c) == crate::text::trim_end(c.drop_last()));
    assert(crate::text::trim_end("../.."@) == "../.."@);
}

} // verus!

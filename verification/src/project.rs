//! The project's root directory: the nearest directory, from the current one upwards, that holds
//! a `sodagun.toml` or a `.git`.

use crate::text::{opt_text, same_text};
use vstd::prelude::*;

verus! {

/// What was found in a directory.
#[derive(Debug)]
pub struct DirProbe {
    pub dir: String,
    pub has_toml: bool,
    pub has_git: bool,
}

/// The project's root directory, and what to say about it.
#[derive(Debug)]
pub struct ProjectDir {
    pub dir: String,
    pub warning: Option<String>,
}

/// The first directory with a `sodagun.toml`.
pub open spec fn first_toml(probes: Seq<DirProbe>) -> Option<Seq<char>>
    decreases probes.len(),
{
    if probes.len() == 0 {
        None
    } else if probes[0].has_toml {
        Some(probes[0].dir@)
    } else {
        first_toml(probes.skip(1))
    }
}

/// The first directory with a `.git`.
pub open spec fn first_git(probes: Seq<DirProbe>) -> Option<Seq<char>>
    decreases probes.len(),
{
    if probes.len() == 0 {
        None
    } else if probes[0].has_git {
        Some(probes[0].dir@)
    } else {
        first_git(probes.skip(1))
    }
}

/// The first directory with either.
pub open spec fn first_marked(probes: Seq<DirProbe>) -> Option<Seq<char>>
    decreases probes.len(),
{
    if probes.len() == 0 {
        None
    } else if probes[0].has_toml || probes[0].has_git {
        Some(probes[0].dir@)
    } else {
        first_marked(probes.skip(1))
    }
}

/// What is said, unless we are to be quiet, where the nearest `sodagun.toml` is not beside the
/// nearest `.git`.
pub open spec fn misplaced_warning(probes: Seq<DirProbe>, quiet: bool) -> Option<Seq<char>> {
    match (first_toml(probes), first_git(probes)) {
        (Some(t), Some(g)) => if !quiet && t != g {
            Some(
                "sodagun.toml should be at the project root ("@ + g + "), not "@ + t,
            )
        } else {
            None
        },
        _ => None,
    }
}

/// The project's root directory. `given` is the one asked for; `probes` are the current directory
/// and those above it, nearest first. The error is what to print.
pub fn find_project_dir(given: Option<&str>, probes: &Vec<DirProbe>, quiet: bool) -> (r: Result<
    ProjectDir,
    String,
>)
    ensures
        match r {
            Ok(p) => match given {
                Some(d) => p.dir@ == d@ && p.warning is None,
                None => {
                    &&& first_marked(probes@) == Some(p.dir@)
                    &&& opt_text(p.warning) == misplaced_warning(probes@, quiet)
                },
            },
            Err(text) => {
                &&& given is None
                &&& first_marked(probes@) is None
                &&& text@
                    == "no sodagun.toml or .git directory found; use --project-dir to specify the project root"@
            },
        },
{
    if let Some(d) = given {
        return Ok(ProjectDir { dir: d.to_owned(), warning: None });
    }
    let mut project: Option<usize> = None;
    let mut toml: Option<usize> = None;
    let mut git: Option<usize> = None;
    let mut i: usize = 0;
    assert(probes@.skip(0) =~= probes@);
    while i < probes.len()
        invariant
            i <= probes.len(),
            match project {
                Some(k) => k < probes.len() && first_marked(probes@) == Some(
                    probes@[k as int].dir@,
                ),
                None => first_marked(probes@) == first_marked(probes@.skip(i as int)),
            },
            match toml {
                Some(k) => k < probes.len() && first_toml(probes@) == Some(probes@[k as int].dir@),
                None => first_toml(probes@) == first_toml(probes@.skip(i as int)),
            },
            match git {
                Some(k) => k < probes.len() && first_git(probes@) == Some(probes@[k as int].dir@),
                None => first_git(probes@) == first_git(probes@.skip(i as int)),
            },
        decreases probes.len() - i,
    {
        proof {
            let rest = probes@.skip(i as int);
            assert(rest[0] == probes@[i as int]);
            assert(rest.skip(1) =~= probes@.skip(i + 1));
        }
        let probe = &probes[i];
        if project.is_none() && (probe.has_toml || probe.has_git) {
            project = Some(i);
        }
        if toml.is_none() && probe.has_toml {
            toml = Some(i);
        }
        if git.is_none() && probe.has_git {
            git = Some(i);
        }
        i += 1;
    }
    let dir = match project {
        Some(k) => probes[k].dir.clone(),
        None => {
            return Err(
                "no sodagun.toml or .git directory found; use --project-dir to specify the project root".to_owned(),
            );
        },
    };
    let warning = match (toml, git) {
        (Some(t), Some(g)) => {
            let t = probes[t].dir.as_str();
            let g = probes[g].dir.as_str();
            if !quiet && !same_text(t, g) {
                Some(
                    "sodagun.toml should be at the project root (".to_owned().concat(g).concat(
                        "), not ",
                    ).concat(t),
                )
            } else {
                None
            }
        },
        _ => None,
    };
    Ok(ProjectDir { dir, warning })
}

/// Wherever it is found, the project's root directory is the nearer of the nearest `sodagun.toml`
/// and the nearest `.git`.
pub proof fn law_project_dir_has_a_marker(probes: Seq<DirProbe>)
    ensures
        first_marked(probes) is Some <==> first_toml(probes) is Some || first_git(probes) is Some,
        first_marked(probes) is Some ==> first_marked(probes) == first_toml(probes)
            || first_marked(probes) == first_git(probes),
    decreases probes.len(),
{
    if probes.len() > 0 {
        law_project_dir_has_a_marker(probes.skip(1));
    }
}

} // verus!

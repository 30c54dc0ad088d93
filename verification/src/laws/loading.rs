//! Laws of loading configuration files and network policies.

use crate::config::{ImageConfig, NamedPolicy, RawSandboxConfig, RegistryConfig, UserImageConfig};
use crate::config::image_table::{validate_image_config, ImageFileReplies};
use crate::config::load::{
    config_path, load_config, load_image_config, load_network_policies,
    load_network_policies_from_dir, load_network_policies_from_path, load_registry_config,
    load_user_image_config, load_user_network_policies, load_user_registry_config,
    load_user_sandbox_config, policies_failure, policies_meant, policy_failure, policy_named,
    xdg_config_path, ConfigFile, FileRead, PolicyFile, UserConfigFile,
};
use crate::error::SodagunError;
use crate::path::join;
use crate::table::Table;
use vstd::prelude::*;

verus! {

/// Whether a name is that of a built-in policy.
pub open spec fn built_in(name: Seq<char>) -> bool {
    name == "none"@ || name == "allow-all"@ || name == "public-only"@
}

// ── Where the user's files are ────────────────────────────────────────────────

/// The user's files are below `$XDG_CONFIG_HOME`, or else below `.config` in the home directory,
/// in a directory of our own; without either there are none.
pub proof fn law_user_files(
    file: &str,
    xdg: Option<&str>,
    home: Option<&str>,
    r: Option<String>,
    s: Option<String>,
)
    requires
        call_ensures(config_path, (file, xdg, home), r),
        call_ensures(xdg_config_path, (file, xdg, home), s),
    ensures
        xdg is Some ==> r is Some && r->0@ == join(xdg->0@, "sodagun/"@ + file@),
        xdg is None && home is Some ==> r is Some && r->0@ == join(
            join(home->0@, ".config"@),
            "sodagun/"@ + file@,
        ),
        xdg is None && home is None ==> r is None,
        xdg is Some ==> s is Some && s->0@ == join(xdg->0@, file@),
        xdg is None && home is Some ==> s is Some && s->0@ == join(
            join(home->0@, ".config"@),
            file@,
        ),
        xdg is None && home is None ==> s is None,
{
}

// ── The project's file ────────────────────────────────────────────────────────

/// A project's file is loaded exactly where it can be read, has an `[image]` table, and the table
/// is accepted; image and sandbox table are what it holds. A file that is not there is told apart
/// from one that is wrong.
pub proof fn law_project_file(
    path: &str,
    read: FileRead<ConfigFile>,
    replies: ImageFileReplies,
    r: Result<(ImageConfig, RawSandboxConfig), SodagunError>,
    checked: Result<ImageConfig, SodagunError>,
)
    requires
        call_ensures(load_config, (path, read, replies), r),
        read is Parsed && read->Parsed_0.image is Some ==> call_ensures(
            validate_image_config,
            (read->Parsed_0.image->0, path, replies),
            checked,
        ),
    ensures
        r is Ok <==> read is Parsed && read->Parsed_0.image is Some && checked is Ok,
        r matches Ok(pair) ==> {
            &&& read->Parsed_0.sandbox is Some ==> pair.1 == read->Parsed_0.sandbox->0
            &&& read->Parsed_0.sandbox is None ==> pair.1.cpus is None && pair.1.memory_mb is None
                && pair.1.volumes@.len() == 0 && pair.1.git_access is None
                && pair.1.working_dir is None && pair.1.network.policy is None
            &&& pair.0.base_image == read->Parsed_0.image->0.base_image
            &&& pair.0.base_snapshot == read->Parsed_0.image->0.base_snapshot
            &&& pair.0.env == read->Parsed_0.image->0.env
        },
        read is Missing || read is NoPath ==> r->Err_0@.code == "CONFIG_NOT_FOUND"@,
        !(read is Missing || read is NoPath) && r is Err ==> r->Err_0@.code == "CONFIG_INVALID"@,
{
}

/// Loading the image alone gives the image that loading everything gives, and the same error.
pub proof fn law_image_alone(
    path: &str,
    read: FileRead<ConfigFile>,
    replies: ImageFileReplies,
    r: Result<(ImageConfig, RawSandboxConfig), SodagunError>,
    image: Result<ImageConfig, SodagunError>,
)
    requires
        call_ensures(load_config, (path, read, replies), r),
        call_ensures(load_image_config, (path, read, replies), image),
    ensures
        r is Ok <==> image is Ok,
        r is Err ==> r->Err_0@ == image->Err_0@,
        r is Ok ==> (r->Ok_0).0.base_image == image->Ok_0.base_image,
{
}

/// The registry of a project is what its file says of it, and nothing where there is no file or no
/// table; a file that cannot be used is an error.
pub proof fn law_registry_of_the_project(
    read: FileRead<ConfigFile>,
    r: Result<RegistryConfig, SodagunError>,
)
    requires
        call_ensures(load_registry_config, (read,), r),
    ensures
        read is Unreadable || read is Malformed <==> r is Err,
        r is Err ==> r->Err_0@.code == "CONFIG_INVALID"@,
        read matches FileRead::Parsed(f) ==> {
            &&& f.registry is Some ==> r->Ok_0.host == f.registry->0.host && r->Ok_0.insecure
                == f.registry->0.insecure
            &&& f.registry is None ==> r->Ok_0.host is None && r->Ok_0.insecure is None
        },
        read is Missing || read is NoPath ==> r->Ok_0.host is None && r->Ok_0.insecure is None,
{
}

// ── The user's file ───────────────────────────────────────────────────────────

/// Of the user's file each table is what the file holds, and nothing where there is no file; a file
/// that cannot be used is an error for all of them.
pub proof fn law_user_file(
    read: FileRead<UserConfigFile>,
    sandbox: Result<Option<RawSandboxConfig>, SodagunError>,
    registry: Result<RegistryConfig, SodagunError>,
    image: Result<UserImageConfig, SodagunError>,
)
    requires
        call_ensures(load_user_sandbox_config, (read,), sandbox),
        call_ensures(load_user_registry_config, (read,), registry),
        call_ensures(load_user_image_config, (read,), image),
    ensures
        sandbox is Err <==> read is Unreadable || read is Malformed,
        registry is Err <==> read is Unreadable || read is Malformed,
        image is Err <==> read is Unreadable || read is Malformed,
        sandbox is Err ==> sandbox->Err_0@.code == "CONFIG_INVALID"@,
        read matches FileRead::Parsed(f) ==> {
            &&& sandbox->Ok_0 == f.sandbox
            &&& f.registry is Some ==> registry->Ok_0.host == f.registry->0.host
                && registry->Ok_0.insecure == f.registry->0.insecure
            &&& f.registry is None ==> registry->Ok_0.host is None && registry->Ok_0.insecure
                is None
            &&& f.image is Some ==> image->Ok_0 == f.image->0
            &&& f.image is None ==> image->Ok_0.namespace_repository is None
                && image->Ok_0.version is None
        },
        read is Missing || read is NoPath ==> {
            &&& sandbox->Ok_0 is None
            &&& registry->Ok_0.host is None
            &&& registry->Ok_0.insecure is None
            &&& image->Ok_0.namespace_repository is None
            &&& image->Ok_0.version is None
        },
{
}

// ── Network policies ──────────────────────────────────────────────────────────

/// The file of network policies gives just the policies that it holds, and its path where it
/// exists. It is refused exactly where it cannot be used or redefines a built-in policy.
pub proof fn law_policies_of_the_file(
    path: Option<String>,
    file: FileRead<Table<NamedPolicy>>,
    r: Result<(Table<NamedPolicy>, Option<String>), SodagunError>,
    s: Result<(Table<NamedPolicy>, bool), SodagunError>,
)
    requires
        call_ensures(load_network_policies, (path, file), r),
        call_ensures(load_network_policies_from_path, (file,), s),
    ensures
        r is Ok <==> s is Ok,
        r is Err <==> {
            ||| file is Unreadable
            ||| file is Malformed
            ||| file is Parsed && exists|name: Seq<char>|
                built_in(name) && #[trigger] file->Parsed_0@.dom().contains(name)
        },
        file is Parsed && r is Ok ==> (r->Ok_0).0@ == file->Parsed_0@ && (r->Ok_0).1 == path
            && (s->Ok_0).0@ == file->Parsed_0@ && (s->Ok_0).1,
        file is Missing || file is NoPath ==> {
            &&& (r->Ok_0).0@ == Map::<Seq<char>, NamedPolicy>::empty()
            &&& (r->Ok_0).1 is None
            &&& !(s->Ok_0).1
        },
{
    if file is Parsed {
        let t = file->Parsed_0;
        assert(crate::config::load::policies_file_fails(file) <==> exists|name: Seq<char>|
            built_in(name) && #[trigger] t@.dom().contains(name));
    }
}

proof fn lemma_policy_named(file: Seq<char>, name: Seq<char>)
    ensures
        policy_named(file) == Some(name) <==> name.len() > 0 && file == name + ".toml"@,
{
    reveal_strlit(".toml");
    if name.len() > 0 && file == name + ".toml"@ {
        assert(file.skip(file.len() - 5) =~= ".toml"@);
        assert(file.take(file.len() - 5) =~= name);
    }
    if policy_named(file) == Some(name) {
        let n = file.len() - 5;
        assert(file =~= file.take(n) + file.skip(n));
    }
}

proof fn lemma_policies(files: Seq<PolicyFile>)
    ensures
        policies_failure(files) is None <==> forall|i: int|
            0 <= i < files.len() ==> policy_failure(#[trigger] files[i]) is None,
        forall|name: Seq<char>| #[trigger]
            policies_meant(files).dom().contains(name) ==> exists|i: int|
                {
                    &&& 0 <= i < files.len()
                    &&& policy_named((#[trigger] files[i]).file_name@) == Some(name)
                    &&& policies_meant(files)[name] == files[i].read->Parsed_0
                    &&& forall|j: int|
                        i < j < files.len() ==> policy_named((#[trigger] files[j]).file_name@)
                            != Some(name)
                },
        forall|i: int|
            0 <= i < files.len() && policy_named((#[trigger] files[i]).file_name@) is Some
                ==> policies_meant(files).dom().contains(policy_named(files[i].file_name@)->0),
    decreases files.len(),
{
    if files.len() > 0 {
        let init = files.drop_last();
        let n = init.len() as int;
        lemma_policies(init);
        assert(forall|i: int| 0 <= i < n ==> init[i] == files[i]);
        assert(files[n] == files.last());
        if policies_failure(init) is Some {
            let k = choose|i: int| 0 <= i < n && policy_failure(#[trigger] init[i]) is Some;
            assert(files[k] == init[k]);
        }
        let before = policies_meant(init);
        let m = policies_meant(files);
        assert forall|name: Seq<char>| #[trigger] m.dom().contains(name) implies exists|i: int|
            {
                &&& 0 <= i < files.len()
                &&& policy_named((#[trigger] files[i]).file_name@) == Some(name)
                &&& m[name] == files[i].read->Parsed_0
                &&& forall|j: int|
                    i < j < files.len() ==> policy_named((#[trigger] files[j]).file_name@) != Some(
                        name,
                    )
            } by {
            if policy_named(files.last().file_name@) == Some(name) {
                assert(policy_named(files[n].file_name@) == Some(name));
            } else {
                assert(before.dom().contains(name));
                let i = choose|i: int|
                    {
                        &&& 0 <= i < init.len()
                        &&& policy_named((#[trigger] init[i]).file_name@) == Some(name)
                        &&& before[name] == init[i].read->Parsed_0
                        &&& forall|j: int|
                            i < j < init.len() ==> policy_named((#[trigger] init[j]).file_name@)
                                != Some(name)
                    };
                assert(policy_named(files[i].file_name@) == Some(name));
                assert forall|j: int| i < j < files.len() implies policy_named(
                    (#[trigger] files[j]).file_name@,
                ) != Some(name) by {
                    if j < n {
                        assert(init[j] == files[j]);
                    }
                }
            }
        }
        assert forall|i: int|
            0 <= i < files.len() && policy_named(
                (#[trigger] files[i]).file_name@,
            ) is Some implies m.dom().contains(policy_named(files[i].file_name@)->0) by {
            if i < n {
                assert(init[i] == files[i]);
                assert(before.dom().contains(policy_named(init[i].file_name@)->0));
            }
        }
    }
}

/// The directory of network policies is refused exactly where it cannot be read, or one of its
/// files `<name>.toml` has a built-in policy's name or cannot be used; what other files hold does
/// not count.
pub proof fn law_policy_directories_that_are_refused(
    files: Vec<PolicyFile>,
    r: Result<(Table<NamedPolicy>, bool), SodagunError>,
)
    requires
        call_ensures(load_network_policies_from_dir, (FileRead::Parsed(files),), r),
    ensures
        r is Err <==> exists|i: int, name: Seq<char>|
            {
                &&& 0 <= i < files@.len()
                &&& name.len() > 0
                &&& (#[trigger] files@[i]).file_name@ == #[trigger] (name + ".toml"@)
                &&& built_in(name) || !(files@[i].read is Parsed)
            },
        r is Ok ==> (r->Ok_0).1,
        r is Err ==> r->Err_0@.code == "CONFIG_INVALID"@,
{
    lemma_policies(files@);
    if r is Err {
        let k = choose|i: int|
            0 <= i < files@.len() && policy_failure(#[trigger] files@[i]) is Some;
        let name = policy_named(files@[k].file_name@)->0;
        lemma_policy_named(files@[k].file_name@, name);
        assert(files@[k].file_name@ == name + ".toml"@);
        lemma_first_failure(files@);
    }
    if exists|i: int, name: Seq<char>|
        {
            &&& 0 <= i < files@.len()
            &&& name.len() > 0
            &&& (#[trigger] files@[i]).file_name@ == #[trigger] (name + ".toml"@)
            &&& built_in(name) || !(files@[i].read is Parsed)
        } {
        let (i, name) = choose|i: int, name: Seq<char>|
            {
                &&& 0 <= i < files@.len()
                &&& name.len() > 0
                &&& (#[trigger] files@[i]).file_name@ == #[trigger] (name + ".toml"@)
                &&& built_in(name) || !(files@[i].read is Parsed)
            };
        lemma_policy_named(files@[i].file_name@, name);
        assert(policy_failure(files@[i]) is Some);
    }
}

proof fn lemma_first_failure(files: Seq<PolicyFile>)
    ensures
        policies_failure(files) matches Some(e) ==> e.code == "CONFIG_INVALID"@,
    decreases files.len(),
{
    if files.len() > 0 {
        lemma_first_failure(files.drop_last());
    }
}

/// Each file `<name>.toml` of the directory gives the policy of that name, the last one where a
/// name occurs more than once, and nothing else gives one.
pub proof fn law_policies_of_the_directory(
    files: Vec<PolicyFile>,
    t: Table<NamedPolicy>,
    there: bool,
    name: Seq<char>,
    i: int,
)
    requires
        call_ensures(load_network_policies_from_dir, (FileRead::Parsed(files),), Ok((t, there))),
        name.len() > 0,
    ensures
        0 <= i < files@.len() && files@[i].file_name@ == name + ".toml"@ ==> {
            &&& t@.dom().contains(name)
            &&& files@[i].read is Parsed
            &&& (forall|j: int|
                i < j < files@.len() ==> (#[trigger] files@[j]).file_name@ != name + ".toml"@)
                ==> t@[name] == files@[i].read->Parsed_0
        },
        (forall|j: int|
            0 <= j < files@.len() ==> (#[trigger] files@[j]).file_name@ != name + ".toml"@)
            ==> !t@.dom().contains(name),
{
    lemma_policies(files@);
    if 0 <= i < files@.len() && files@[i].file_name@ == name + ".toml"@ {
        lemma_policy_named(files@[i].file_name@, name);
        assert(policy_failure(files@[i]) is None);
    }
    if t@.dom().contains(name) {
        let k = choose|k: int|
            {
                &&& 0 <= k < files@.len()
                &&& policy_named((#[trigger] files@[k]).file_name@) == Some(name)
                &&& policies_meant(files@)[name] == files@[k].read->Parsed_0
                &&& forall|j: int|
                    k < j < files@.len() ==> policy_named((#[trigger] files@[j]).file_name@)
                        != Some(name)
            };
        lemma_policy_named(files@[k].file_name@, name);
        if 0 <= i < files@.len() && files@[i].file_name@ == name + ".toml"@ && k != i {
            if k < i {
                assert(policy_named(files@[i].file_name@) != Some(name));
            }
        }
    }
}

/// Together, a policy of the directory wins over one of the file with the same name, and the
/// directory is handed back exactly where it exists.
pub proof fn law_directory_wins(
    path: Option<String>,
    file: FileRead<Table<NamedPolicy>>,
    dir: Option<String>,
    found: FileRead<Vec<PolicyFile>>,
    r: Result<(Table<NamedPolicy>, Option<String>), SodagunError>,
    of_file: Result<(Table<NamedPolicy>, bool), SodagunError>,
    of_dir: Result<(Table<NamedPolicy>, bool), SodagunError>,
    name: Seq<char>,
)
    requires
        call_ensures(load_user_network_policies, (path, file, dir, found), r),
        call_ensures(load_network_policies_from_path, (file,), of_file),
        call_ensures(load_network_policies_from_dir, (found,), of_dir),
    ensures
        r is Ok <==> of_file is Ok && of_dir is Ok,
        r is Ok && (of_dir->Ok_0).0@.dom().contains(name) ==> (r->Ok_0).0@.dom().contains(name)
            && (r->Ok_0).0@[name] == (of_dir->Ok_0).0@[name],
        r is Ok && !(of_dir->Ok_0).0@.dom().contains(name) && (of_file->Ok_0).0@.dom().contains(
            name,
        ) ==> (r->Ok_0).0@.dom().contains(name) && (r->Ok_0).0@[name]
            == (of_file->Ok_0).0@[name],
        r is Ok && !(of_dir->Ok_0).0@.dom().contains(name) && !(of_file->Ok_0).0@.dom().contains(
            name,
        ) ==> !(r->Ok_0).0@.dom().contains(name),
        r is Ok && found is Parsed ==> (r->Ok_0).1 == dir,
        r is Ok && !(found is Parsed) ==> (r->Ok_0).1 is None,
{
}

} // verus!

//! Loading: from what was found at a path to a configuration.

use crate::config::image_table::{
    image_complaint, is_resolved, validate_image_config, ImageFileReplies,
};
use crate::config::{
    ImageConfig, NamedPolicy, RawImageConfig, RawRegistryConfig, RawSandboxConfig, RegistryConfig,
    UserImageConfig,
};
use crate::error::{failure, fault, Failure, SodagunError};
use crate::network::policy::{is_reserved_name, reserved_name};
use crate::path::{join, join_path};
use crate::table::{key_position, Table};
use crate::text::{opt_str, opt_text, part, same_text};
use vstd::prelude::*;

verus! {

/// What was found at a path; errors in printed form.
#[derive(Debug)]
pub enum FileRead<T> {
    /// There is no path to look at.
    NoPath,
    /// Nothing is there.
    Missing,
    /// It could not be read.
    Unreadable(String),
    /// It was read, and is not what it should be.
    Malformed(String),
    Parsed(T),
}

/// A project's `sodagun.toml`.
#[derive(Debug)]
pub struct ConfigFile {
    pub image: Option<RawImageConfig>,
    pub sandbox: Option<RawSandboxConfig>,
    pub registry: Option<RawRegistryConfig>,
}

/// A user's own `sodagun.toml`.
#[derive(Debug)]
pub struct UserConfigFile {
    pub sandbox: Option<RawSandboxConfig>,
    pub image: Option<UserImageConfig>,
    pub registry: Option<RawRegistryConfig>,
}

/// What was found in a file of the directory of network policies.
#[derive(Debug)]
pub enum PolicyRead {
    Unreadable(String),
    Malformed(String),
    Parsed(NamedPolicy),
}

/// A file of the directory of network policies.
#[derive(Debug)]
pub struct PolicyFile {
    pub file_name: String,
    pub read: PolicyRead,
}

// ── Where the user's files are ────────────────────────────────────────────────

/// `$XDG_CONFIG_HOME/<rel>`, or else `$HOME/.config/<rel>`.
pub open spec fn user_file(
    rel: Seq<char>,
    xdg: Option<Seq<char>>,
    home: Option<Seq<char>>,
) -> Option<Seq<char>> {
    match (xdg, home) {
        (Some(dir), _) => Some(join(dir, rel)),
        (None, Some(h)) => Some(join(join(h, ".config"@), rel)),
        (None, None) => None,
    }
}

/// The path `rel` below the user's configuration directory.
pub fn xdg_config_path(rel: &str, xdg: Option<&str>, home: Option<&str>) -> (r: Option<String>)
    ensures
        opt_text(r) == user_file(rel@, opt_str(xdg), opt_str(home)),
{
    match xdg {
        Some(dir) => Some(join_path(dir, rel)),
        None => match home {
            Some(h) => Some(join_path(join_path(h, ".config").as_str(), rel)),
            None => None,
        },
    }
}

/// The path of one of our own files below the user's configuration directory.
pub fn config_path(file: &str, xdg: Option<&str>, home: Option<&str>) -> (r: Option<String>)
    ensures
        opt_text(r) == user_file("sodagun/"@ + file@, opt_str(xdg), opt_str(home)),
{
    xdg_config_path("sodagun/".to_owned().concat(file).as_str(), xdg, home)
}

// ── The project's file ────────────────────────────────────────────────────────

/// What a project's file that cannot be used is answered with; `None` if it can be read.
pub open spec fn unusable(path: Seq<char>, read: FileRead<ConfigFile>) -> Option<Failure> {
    match read {
        FileRead::NoPath => Some(
            failure("CONFIG_NOT_FOUND"@, "no config file at "@ + path),
        ),
        FileRead::Missing => Some(failure("CONFIG_NOT_FOUND"@, "no config file at "@ + path)),
        FileRead::Unreadable(why) => Some(
            failure("CONFIG_INVALID"@, "failed to read config: "@ + why@),
        ),
        FileRead::Malformed(why) => Some(failure("CONFIG_INVALID"@, "invalid TOML: "@ + why@)),
        FileRead::Parsed(_) => None,
    }
}

/// What loading a project's file fails with, if it fails.
pub open spec fn load_failure(
    path: Seq<char>,
    read: FileRead<ConfigFile>,
    replies: ImageFileReplies,
) -> Option<Failure> {
    match read {
        FileRead::Parsed(file) => match file.image {
            None => Some(
                failure("CONFIG_INVALID"@, "[image] section is required in sodagun.toml"@),
            ),
            Some(raw) => match image_complaint(raw, path, replies) {
                Some(c) => Some(failure("CONFIG_INVALID"@, c)),
                None => None,
            },
        },
        _ => unusable(path, read),
    }
}

/// Whether there is a reply for each setup file that a project's file names.
pub open spec fn replies_match(read: FileRead<ConfigFile>, replies: ImageFileReplies) -> bool {
    match read {
        FileRead::Parsed(file) => match file.image {
            Some(raw) => replies.setup_files@.len() == raw.setup_files@.len(),
            None => true,
        },
        _ => true,
    }
}

/// `unusable` as an error.
fn unusable_error(path: &str, read: &FileRead<ConfigFile>) -> (r: Option<SodagunError>)
    ensures
        match r {
            Some(e) => unusable(path@, *read) == Some(e@),
            None => unusable(path@, *read) is None,
        },
{
    match read {
        FileRead::NoPath => Some(
            fault("CONFIG_NOT_FOUND", "no config file at ".to_owned().concat(path)),
        ),
        FileRead::Missing => Some(
            fault("CONFIG_NOT_FOUND", "no config file at ".to_owned().concat(path)),
        ),
        FileRead::Unreadable(why) => Some(
            fault("CONFIG_INVALID", "failed to read config: ".to_owned().concat(why.as_str())),
        ),
        FileRead::Malformed(why) => Some(
            fault("CONFIG_INVALID", "invalid TOML: ".to_owned().concat(why.as_str())),
        ),
        FileRead::Parsed(_) => None,
    }
}

/// Loads `[image]` and `[sandbox]` from a project's file. `[image]` must be there; `[sandbox]`
/// may be left out, and is to be merged with the user's before use.
pub fn load_config(path: &str, read: FileRead<ConfigFile>, replies: ImageFileReplies) -> (r: Result<
    (ImageConfig, RawSandboxConfig),
    SodagunError,
>)
    requires
        replies_match(read, replies),
    ensures
        match r {
            Ok((image, sandbox)) => {
                &&& load_failure(path@, read, replies) is None
                &&& is_resolved(image, read->Parsed_0.image->0, path@, replies)
                &&& match read->Parsed_0.sandbox {
                    Some(s) => sandbox == s,
                    None => sandbox.blank(),
                }
            },
            Err(e) => load_failure(path@, read, replies) == Some(e@),
        },
{
    if let Some(e) = unusable_error(path, &read) {
        return Err(e);
    }
    match read {
        FileRead::Parsed(file) => {
            let raw = match file.image {
                Some(raw) => raw,
                None => {
                    return Err(
                        fault(
                            "CONFIG_INVALID",
                            "[image] section is required in sodagun.toml".to_owned(),
                        ),
                    );
                },
            };
            let sandbox = match file.sandbox {
                Some(s) => s,
                None => RawSandboxConfig::default(),
            };
            match validate_image_config(raw, path, replies) {
                Ok(image) => Ok((image, sandbox)),
                Err(e) => Err(e),
            }
        },
        _ => vstd::pervasive::unreached(),
    }
}

/// Loads `[image]` alone from a project's file.
pub fn load_image_config(
    path: &str,
    read: FileRead<ConfigFile>,
    replies: ImageFileReplies,
) -> (r: Result<ImageConfig, SodagunError>)
    requires
        replies_match(read, replies),
    ensures
        match r {
            Ok(image) => {
                &&& load_failure(path@, read, replies) is None
                &&& is_resolved(image, read->Parsed_0.image->0, path@, replies)
            },
            Err(e) => load_failure(path@, read, replies) == Some(e@),
        },
{
    match load_config(path, read, replies) {
        Ok((image, _)) => Ok(image),
        Err(e) => Err(e),
    }
}

/// The registry that a table stands for.
fn raw_registry_to_config(raw: RawRegistryConfig) -> (r: RegistryConfig)
    ensures
        r == (RegistryConfig { host: raw.host, insecure: raw.insecure }),
{
    RegistryConfig { host: raw.host, insecure: raw.insecure }
}

/// The registry that an optional table stands for.
pub open spec fn registry_meant(raw: Option<RawRegistryConfig>) -> RegistryConfig {
    match raw {
        Some(r) => RegistryConfig { host: r.host, insecure: r.insecure },
        None => RegistryConfig { host: None, insecure: None },
    }
}

/// The registry that an optional table stands for.
fn registry_of(raw: Option<RawRegistryConfig>) -> (r: RegistryConfig)
    ensures
        r == registry_meant(raw),
{
    match raw {
        Some(t) => raw_registry_to_config(t),
        None => RegistryConfig::default(),
    }
}

/// Loads `[registry]` from a project's file; without file or table nothing is set.
pub fn load_registry_config(read: FileRead<ConfigFile>) -> (r: Result<RegistryConfig, SodagunError>)
    ensures
        match read {
            FileRead::NoPath => r == Ok::<RegistryConfig, SodagunError>(registry_meant(None)),
            FileRead::Missing => r == Ok::<RegistryConfig, SodagunError>(registry_meant(None)),
            FileRead::Unreadable(why) => r is Err && r->Err_0@ == failure(
                "CONFIG_INVALID"@,
                "failed to read config: "@ + why@,
            ),
            FileRead::Malformed(why) => r is Err && r->Err_0@ == failure(
                "CONFIG_INVALID"@,
                "invalid TOML: "@ + why@,
            ),
            FileRead::Parsed(file) => r == Ok::<RegistryConfig, SodagunError>(
                registry_meant(file.registry),
            ),
        },
{
    match read {
        FileRead::NoPath => Ok(RegistryConfig::default()),
        FileRead::Missing => Ok(RegistryConfig::default()),
        FileRead::Unreadable(why) => Err(
            fault("CONFIG_INVALID", "failed to read config: ".to_owned().concat(why.as_str())),
        ),
        FileRead::Malformed(why) => Err(
            fault("CONFIG_INVALID", "invalid TOML: ".to_owned().concat(why.as_str())),
        ),
        FileRead::Parsed(file) => Ok(registry_of(file.registry)),
    }
}

// ── The user's file ───────────────────────────────────────────────────────────

/// What a user's file that cannot be used is answered with. No file at all is fine.
pub open spec fn user_failure(read: FileRead<UserConfigFile>) -> Option<Failure> {
    match read {
        FileRead::Unreadable(why) => Some(
            failure("CONFIG_INVALID"@, "failed to read user config: "@ + why@),
        ),
        FileRead::Malformed(why) => Some(
            failure("CONFIG_INVALID"@, "invalid TOML in user config: "@ + why@),
        ),
        _ => None,
    }
}

/// The user's file, if there is one.
pub open spec fn user_content(read: FileRead<UserConfigFile>) -> Option<UserConfigFile> {
    match read {
        FileRead::Parsed(file) => Some(file),
        _ => None,
    }
}

/// The user's file, if there is one.
fn user_file_content(read: FileRead<UserConfigFile>) -> (r: Result<
    Option<UserConfigFile>,
    SodagunError,
>)
    ensures
        match r {
            Ok(file) => user_failure(read) is None && file == user_content(read),
            Err(e) => user_failure(read) == Some(e@),
        },
{
    match read {
        FileRead::NoPath => Ok(None),
        FileRead::Missing => Ok(None),
        FileRead::Unreadable(why) => Err(
            fault(
                "CONFIG_INVALID",
                "failed to read user config: ".to_owned().concat(why.as_str()),
            ),
        ),
        FileRead::Malformed(why) => Err(
            fault(
                "CONFIG_INVALID",
                "invalid TOML in user config: ".to_owned().concat(why.as_str()),
            ),
        ),
        FileRead::Parsed(file) => Ok(Some(file)),
    }
}

/// Loads `[sandbox]` from the user's file.
pub fn load_user_sandbox_config(read: FileRead<UserConfigFile>) -> (r: Result<
    Option<RawSandboxConfig>,
    SodagunError,
>)
    ensures
        match r {
            Ok(sandbox) => user_failure(read) is None && sandbox == match user_content(read) {
                Some(file) => file.sandbox,
                None => None,
            },
            Err(e) => user_failure(read) == Some(e@),
        },
{
    match user_file_content(read) {
        Ok(Some(file)) => Ok(file.sandbox),
        Ok(None) => Ok(None),
        Err(e) => Err(e),
    }
}

/// Loads `[registry]` from the user's file.
pub fn load_user_registry_config(read: FileRead<UserConfigFile>) -> (r: Result<
    RegistryConfig,
    SodagunError,
>)
    ensures
        match r {
            Ok(registry) => user_failure(read) is None && registry == match user_content(read) {
                Some(file) => registry_meant(file.registry),
                None => registry_meant(None),
            },
            Err(e) => user_failure(read) == Some(e@),
        },
{
    match user_file_content(read) {
        Ok(Some(file)) => Ok(registry_of(file.registry)),
        Ok(None) => Ok(RegistryConfig::default()),
        Err(e) => Err(e),
    }
}

/// Loads `[image]` from the user's file.
pub fn load_user_image_config(read: FileRead<UserConfigFile>) -> (r: Result<
    UserImageConfig,
    SodagunError,
>)
    ensures
        match r {
            Ok(image) => user_failure(read) is None && image == match user_content(read) {
                Some(UserConfigFile { image: Some(i), .. }) => i,
                _ => UserImageConfig { namespace_repository: None, version: None },
            },
            Err(e) => user_failure(read) == Some(e@),
        },
{
    match user_file_content(read) {
        Ok(Some(file)) => match file.image {
            Some(i) => Ok(i),
            None => Ok(UserImageConfig::default()),
        },
        Ok(None) => Ok(UserImageConfig::default()),
        Err(e) => Err(e),
    }
}

// ── Network policies ──────────────────────────────────────────────────────────

/// What a policy with a reserved name is answered with.
pub open spec fn reserved_failure(name: Seq<char>) -> Failure {
    failure(
        "CONFIG_INVALID"@,
        "network policy '"@ + name + "' is a reserved built-in name and cannot be redefined"@,
    )
}

/// `reserved_failure` as an error.
fn reserved_error(name: &str) -> (e: SodagunError)
    ensures
        e@ == reserved_failure(name@),
{
    fault(
        "CONFIG_INVALID",
        "network policy '".to_owned().concat(name).concat(
            "' is a reserved built-in name and cannot be redefined",
        ),
    )
}

/// Whether a file of network policies is refused.
pub open spec fn policies_file_fails(read: FileRead<Table<NamedPolicy>>) -> bool {
    match read {
        FileRead::Unreadable(_) => true,
        FileRead::Malformed(_) => true,
        FileRead::Parsed(t) => exists|name: Seq<char>| #[trigger]
            t@.dom().contains(name) && reserved_name(name),
        _ => false,
    }
}

/// Whether a file of network policies may be refused with `e`; any reserved name that it holds may
/// be named.
pub open spec fn policies_file_fails_with(
    read: FileRead<Table<NamedPolicy>>,
    e: Failure,
) -> bool {
    match read {
        FileRead::Unreadable(why) => e == failure(
            "CONFIG_INVALID"@,
            "failed to read network policies file: "@ + why@,
        ),
        FileRead::Malformed(why) => e == failure(
            "CONFIG_INVALID"@,
            "invalid network policies TOML: "@ + why@,
        ),
        FileRead::Parsed(t) => exists|name: Seq<char>| #[trigger]
            t@.dom().contains(name) && reserved_name(name) && e == reserved_failure(name),
        _ => false,
    }
}

/// The policies that a file holds, by name.
pub open spec fn policies_in_file(read: FileRead<Table<NamedPolicy>>) -> Map<
    Seq<char>,
    NamedPolicy,
> {
    match read {
        FileRead::Parsed(t) => t@,
        _ => Map::empty(),
    }
}

/// Loads network policies from one file that holds them all; tells whether the file exists.
pub fn load_network_policies_from_path(read: FileRead<Table<NamedPolicy>>) -> (r: Result<
    (Table<NamedPolicy>, bool),
    SodagunError,
>)
    ensures
        match r {
            Ok((t, found)) => {
                &&& !policies_file_fails(read)
                &&& t@ == policies_in_file(read)
                &&& found == (read is Parsed)
            },
            Err(e) => policies_file_fails(read) && policies_file_fails_with(read, e@),
        },
{
    match read {
        FileRead::NoPath => Ok((Table::new(), false)),
        FileRead::Missing => Ok((Table::new(), false)),
        FileRead::Unreadable(why) => Err(
            fault(
                "CONFIG_INVALID",
                "failed to read network policies file: ".to_owned().concat(why.as_str()),
            ),
        ),
        FileRead::Malformed(why) => Err(
            fault(
                "CONFIG_INVALID",
                "invalid network policies TOML: ".to_owned().concat(why.as_str()),
            ),
        ),
        FileRead::Parsed(t) => match reserved_entry(&t) {
            Some(i) => {
                assert(t@.dom().contains(t.pairs()[i as int].0));
                Err(reserved_error(t.key_at(i)))
            },
            None => Ok((t, true)),
        },
    }
}

/// The position of an entry with a reserved name.
fn reserved_entry(t: &Table<NamedPolicy>) -> (r: Option<usize>)
    ensures
        match r {
            Some(i) => {
                &&& i < t.pairs().len()
                &&& reserved_name(t.pairs()[i as int].0)
                &&& t@.dom().contains(t.pairs()[i as int].0)
            },
            None => forall|name: Seq<char>| #[trigger]
                t@.dom().contains(name) ==> !reserved_name(name),
        },
{
    let n = t.len();
    let mut i: usize = 0;
    while i < n
        invariant
            i <= n,
            n == t.pairs().len(),
            forall|j: int| 0 <= j < i ==> !reserved_name((#[trigger] t.pairs()[j]).0),
        decreases n - i,
    {
        if is_reserved_name(t.key_at(i)) {
            return Some(i);
        }
        i += 1;
    }
    proof {
        assert forall|name: Seq<char>| #[trigger] t@.dom().contains(name) implies !reserved_name(
            name,
        ) by {
            let j = key_position(t.pairs(), name);
            assert(t.pairs()[j].0 == name);
        }
    }
    None
}

/// The name of the policy in a file called `file`; only `<name>.toml` holds a policy.
pub open spec fn policy_named(file: Seq<char>) -> Option<Seq<char>> {
    let n = file.len() - 5;
    if n > 0 && file.skip(n) == ".toml"@ {
        Some(file.take(n))
    } else {
        None
    }
}

/// What a file of the policy directory fails with, if it does.
pub open spec fn policy_failure(f: PolicyFile) -> Option<Failure> {
    match policy_named(f.file_name@) {
        None => None,
        Some(name) => if reserved_name(name) {
            Some(reserved_failure(name))
        } else {
            match f.read {
                PolicyRead::Unreadable(why) => Some(
                    failure(
                        "CONFIG_INVALID"@,
                        "failed to read network policy '"@ + name + "': "@ + why@,
                    ),
                ),
                PolicyRead::Malformed(why) => Some(
                    failure(
                        "CONFIG_INVALID"@,
                        "invalid TOML in network policy '"@ + name + "': "@ + why@,
                    ),
                ),
                PolicyRead::Parsed(_) => None,
            }
        },
    }
}

/// What the first file that fails fails with.
pub open spec fn policies_failure(files: Seq<PolicyFile>) -> Option<Failure>
    decreases files.len(),
{
    if files.len() == 0 {
        None
    } else {
        match policies_failure(files.drop_last()) {
            Some(e) => Some(e),
            None => policy_failure(files.last()),
        }
    }
}

/// The policies that files hold, by name.
pub open spec fn policies_meant(files: Seq<PolicyFile>) -> Map<Seq<char>, NamedPolicy>
    decreases files.len(),
{
    if files.len() == 0 {
        Map::empty()
    } else {
        let before = policies_meant(files.drop_last());
        match policy_named(files.last().file_name@) {
            None => before,
            Some(name) => before.insert(name, files.last().read->Parsed_0),
        }
    }
}

/// The name of the policy in a file.
fn policy_name(file: &str) -> (r: Option<String>)
    ensures
        opt_text(r) == policy_named(file@),
{
    let n = file.unicode_len();
    if n > 5 {
        let tail = part(file, n - 5, n);
        assert(tail@ =~= file@.skip(n - 5));
        if same_text(tail.as_str(), ".toml") {
            let stem = part(file, 0, n - 5);
            assert(stem@ =~= file@.take(n - 5));
            return Some(stem);
        }
    }
    None
}

/// Adds the policy in a file to those known so far.
fn add_policy(known: Table<NamedPolicy>, f: PolicyFile) -> (r: Result<
    Table<NamedPolicy>,
    SodagunError,
>)
    ensures
        match r {
            Ok(t) => {
                &&& policy_failure(f) is None
                &&& t@ == match policy_named(f.file_name@) {
                    None => known@,
                    Some(name) => known@.insert(name, f.read->Parsed_0),
                }
            },
            Err(e) => policy_failure(f) == Some(e@),
        },
{
    let name = match policy_name(f.file_name.as_str()) {
        Some(n) => n,
        None => return Ok(known),
    };
    if is_reserved_name(name.as_str()) {
        return Err(reserved_error(name.as_str()));
    }
    match f.read {
        PolicyRead::Unreadable(why) => Err(
            fault(
                "CONFIG_INVALID",
                "failed to read network policy '".to_owned().concat(name.as_str()).concat(
                    "': ",
                ).concat(why.as_str()),
            ),
        ),
        PolicyRead::Malformed(why) => Err(
            fault(
                "CONFIG_INVALID",
                "invalid TOML in network policy '".to_owned().concat(name.as_str()).concat(
                    "': ",
                ).concat(why.as_str()),
            ),
        ),
        PolicyRead::Parsed(p) => {
            let mut t = known;
            t.insert(name, p);
            Ok(t)
        },
    }
}

/// Reads the policies in the files of a directory, one policy in each `<name>.toml`; other files
/// are ignored.
fn read_policies(files: Vec<PolicyFile>) -> (r: Result<
    Table<NamedPolicy>,
    SodagunError,
>)
    ensures
        match r {
            Ok(t) => policies_failure(files@) is None && t@ == policies_meant(files@),
            Err(e) => policies_failure(files@) == Some(e@),
        },
{
    let ghost all = files@;
    let mut t: Table<NamedPolicy> = Table::new();
    assert(all.take(0) =~= Seq::empty());
    for f in it: files
        invariant
            it.seq() == all,
            policies_failure(all.take(it.index())) is None,
            t@ == policies_meant(all.take(it.index())),
    {
        proof {
            let i = it.index();
            assert(all.take(i + 1).drop_last() =~= all.take(i));
            assert(all.take(i + 1).last() == f);
        }
        t = match add_policy(t, f) {
            Ok(t2) => t2,
            Err(e) => {
                proof {
                    lemma_first_policy_failure(all, it.index() + 1);
                }
                return Err(e);
            },
        };
    }
    assert(all.take(all.len() as int) =~= all);
    Ok(t)
}

/// What the first `n` files fail with, all fail with.
proof fn lemma_first_policy_failure(files: Seq<PolicyFile>, n: int)
    requires
        0 <= n <= files.len(),
        policies_failure(files.take(n)) is Some,
    ensures
        policies_failure(files) == policies_failure(files.take(n)),
    decreases files.len(),
{
    if n < files.len() {
        assert(files.drop_last().take(n) =~= files.take(n));
        lemma_first_policy_failure(files.drop_last(), n);
    } else {
        assert(files.take(n) =~= files);
    }
}

/// The policy directory cannot be read.
pub open spec fn unreadable_dir(why: Seq<char>) -> Failure {
    failure("CONFIG_INVALID"@, "failed to read network policy directory: "@ + why)
}

/// The error for a policy directory that cannot be read.
fn unreadable_dir_error(why: &str) -> (e: SodagunError)
    ensures
        e@ == unreadable_dir(why@),
{
    fault("CONFIG_INVALID", "failed to read network policy directory: ".to_owned().concat(why))
}

/// What a directory of network policies fails with, if it does.
pub open spec fn policies_dir_failure(found: FileRead<Vec<PolicyFile>>) -> Option<Failure> {
    match found {
        FileRead::Parsed(files) => policies_failure(files@),
        FileRead::Unreadable(why) => Some(unreadable_dir(why@)),
        FileRead::Malformed(why) => Some(unreadable_dir(why@)),
        _ => None,
    }
}

/// The policies in a directory, by name.
pub open spec fn policies_in_dir(found: FileRead<Vec<PolicyFile>>) -> Map<Seq<char>, NamedPolicy> {
    match found {
        FileRead::Parsed(files) => policies_meant(files@),
        _ => Map::empty(),
    }
}

/// Loads network policies from a directory, in which `found` was found; tells whether the
/// directory exists.
pub fn load_network_policies_from_dir(found: FileRead<Vec<PolicyFile>>) -> (r: Result<
    (Table<NamedPolicy>, bool),
    SodagunError,
>)
    ensures
        match r {
            Ok((t, at)) => {
                &&& policies_dir_failure(found) is None
                &&& t@ == policies_in_dir(found)
                &&& at == (found is Parsed)
            },
            Err(e) => policies_dir_failure(found) == Some(e@),
        },
{
    match found {
        FileRead::Parsed(files) => match read_policies(files) {
            Ok(t) => Ok((t, true)),
            Err(e) => Err(e),
        },
        FileRead::Unreadable(why) => Err(unreadable_dir_error(why.as_str())),
        FileRead::Malformed(why) => Err(unreadable_dir_error(why.as_str())),
        FileRead::NoPath => Ok((Table::new(), false)),
        FileRead::Missing => Ok((Table::new(), false)),
    }
}

/// Loads the network policies of the one file that may hold many; `path` is where it is looked
/// for, and is handed back where the file exists.
pub fn load_network_policies(path: Option<String>, file: FileRead<Table<NamedPolicy>>) -> (r:
    Result<(Table<NamedPolicy>, Option<String>), SodagunError>)
    ensures
        match r {
            Ok((t, at)) => {
                &&& !policies_file_fails(file)
                &&& t@ == policies_in_file(file)
                &&& at == if file is Parsed {
                    path
                } else {
                    None
                }
            },
            Err(e) => policies_file_fails(file) && policies_file_fails_with(file, e@),
        },
{
    match load_network_policies_from_path(file) {
        Ok((t, there)) => Ok((t, if there { path } else { None })),
        Err(e) => Err(e),
    }
}

/// Loads all of the user's network policies: those of the file at `path`, and those of the
/// directory `dir`, which win where both define a name. `found` is what is in that directory,
/// which is handed back where it exists.
pub fn load_user_network_policies(
    path: Option<String>,
    file: FileRead<Table<NamedPolicy>>,
    dir: Option<String>,
    found: FileRead<Vec<PolicyFile>>,
) -> (r: Result<(Table<NamedPolicy>, Option<String>), SodagunError>)
    ensures
        match r {
            Ok((t, at)) => {
                &&& !policies_file_fails(file)
                &&& policies_dir_failure(found) is None
                &&& t@ == policies_in_file(file).union_prefer_right(policies_in_dir(found))
                &&& at == if found is Parsed {
                    dir
                } else {
                    None
                }
            },
            Err(e) => if policies_file_fails(file) {
                policies_file_fails_with(file, e@)
            } else {
                policies_dir_failure(found) == Some(e@)
            },
        },
{
    let mut policies = match load_network_policies(path, file) {
        Ok((t, _)) => t,
        Err(e) => return Err(e),
    };
    match load_network_policies_from_dir(found) {
        Ok((t, at)) => {
            policies.extend(t);
            Ok((policies, if at { dir } else { None }))
        },
        Err(e) => Err(e),
    }
}

/// No policy in the files of a directory has a built-in policy's name.
proof fn lemma_read_policies_are_not_builtin(files: Seq<PolicyFile>, name: Seq<char>)
    requires
        policies_failure(files) is None,
        policies_meant(files).dom().contains(name),
    ensures
        !reserved_name(name),
    decreases files.len(),
{
    if files.len() > 0 {
        let before = policies_meant(files.drop_last());
        if before.dom().contains(name) {
            lemma_read_policies_are_not_builtin(files.drop_last(), name);
        }
    }
}

/// No policy that is loaded, from the file or from the directory, has a built-in policy's name.
pub proof fn law_loaded_policies_are_not_builtin(
    file: FileRead<Table<NamedPolicy>>,
    found: FileRead<Vec<PolicyFile>>,
    name: Seq<char>,
)
    requires
        !policies_file_fails(file),
        policies_dir_failure(found) is None,
        policies_in_file(file).union_prefer_right(policies_in_dir(found)).dom().contains(name),
    ensures
        !reserved_name(name),
{
    if policies_in_dir(found).dom().contains(name) {
        lemma_read_policies_are_not_builtin(found->Parsed_0@, name);
    } else {
        assert(file->Parsed_0@.dom().contains(name));
    }
}

} // verus!

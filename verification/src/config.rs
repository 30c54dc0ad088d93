//! Configuration: what `sodagun.toml` and the user's own files hold.

use crate::table::Table;
use vstd::prelude::*;

pub mod image;
pub mod image_table;
pub mod load;
pub mod merge;
pub mod volume;

pub use image::snapshot_name;
pub use image_table::{
    default_image_config, dockerfile_image_tag, image_files, image_to_build, validate_image_config,
    ImageFileReplies, ImageFiles,
};
pub use load::{
    load_config, load_image_config, load_network_policies, load_network_policies_from_dir,
    load_network_policies_from_path, load_registry_config, load_user_image_config,
    load_user_network_policies, load_user_registry_config, load_user_sandbox_config, ConfigFile,
    FileRead, PolicyFile, PolicyRead, UserConfigFile,
};
pub use merge::{merge_registry_configs, merge_sandbox_configs, merge_user_image_config};
pub use volume::{parse_volume, MountFlags};

verus! {

/// Basename of the setup script among the files injected while a snapshot is made. The leading
/// underscore keeps it apart from the files a user lists.
pub const SETUP_SCRIPT_NAME: &'static str = "_setup";

// ── Network ───────────────────────────────────────────────────────────────────

/// What happens to traffic that a rule matches.
#[derive(Debug, Clone, Copy, PartialEq, Eq, Structural)]
pub enum ConfigAction {
    Allow,
    Deny,
}

/// Which way the traffic goes that a rule speaks of.
#[derive(Debug, Clone, Copy, PartialEq, Eq, Structural)]
pub enum ConfigDirection {
    Egress,
    Ingress,
    Any,
}

/// A transport protocol that a rule can be limited to.
#[derive(Debug, Clone, Copy, PartialEq, Eq, Structural)]
pub enum ConfigProtocol {
    Tcp,
    Udp,
}

/// One network rule. No protocol means every protocol, no ports every port.
#[derive(Debug)]
pub struct NetworkRule {
    pub direction: ConfigDirection,
    pub action: ConfigAction,
    pub destination: String,
    pub protocol: Option<ConfigProtocol>,
    pub ports: Vec<u16>,
}

/// The contents of a network rule.
pub ghost struct RuleModel {
    pub direction: ConfigDirection,
    pub action: ConfigAction,
    pub destination: Seq<char>,
    pub protocol: Option<ConfigProtocol>,
    pub ports: Seq<u16>,
}

impl View for NetworkRule {
    type V = RuleModel;

    open spec fn view(&self) -> RuleModel {
        RuleModel {
            direction: self.direction,
            action: self.action,
            destination: self.destination@,
            protocol: self.protocol,
            ports: self.ports@,
        }
    }
}

/// The contents of network rules.
pub open spec fn rule_models(rules: Seq<NetworkRule>) -> Seq<RuleModel> {
    Seq::new(rules.len(), |i: int| rules[i]@)
}

/// The `[sandbox.network]` table.
#[derive(Debug)]
pub struct NetworkConfig {
    pub policy: Option<String>,
    pub default_egress: Option<ConfigAction>,
    pub default_ingress: Option<ConfigAction>,
    pub rules: Vec<NetworkRule>,
}

impl NetworkConfig {
    /// Whether anything at all is configured.
    pub open spec fn configured(&self) -> bool {
        ||| self.policy is Some
        ||| self.rules@.len() > 0
        ||| self.default_egress is Some
        ||| self.default_ingress is Some
    }

    /// Whether anything at all is configured; a sandbox without network configuration has no
    /// network.
    pub fn has_config(&self) -> (r: bool)
        ensures
            r == self.configured(),
    {
        self.policy.is_some() || self.rules.len() > 0 || self.default_egress.is_some()
            || self.default_ingress.is_some()
    }
}

impl Default for NetworkConfig {
    fn default() -> (r: Self)
        ensures
            r.policy is None,
            r.default_egress is None,
            r.default_ingress is None,
            r.rules@ == Seq::<NetworkRule>::empty(),
    {
        NetworkConfig {
            policy: None,
            default_egress: None,
            default_ingress: None,
            rules: Vec::new(),
        }
    }
}

/// A network policy that a user has given a name.
#[derive(Debug)]
pub struct NamedPolicy {
    pub default_egress: Option<ConfigAction>,
    pub default_ingress: Option<ConfigAction>,
    pub rules: Vec<NetworkRule>,
}

// ── Values ────────────────────────────────────────────────────────────────────

/// Where a value comes from. Exactly one of the three must be set, which is checked when a
/// sandbox is launched.
#[derive(Debug)]
pub struct ValueSource {
    pub value: Option<String>,
    pub value_from_env: Option<String>,
    /// Shell command whose output is the value. Runs on the host at launch.
    pub value_from_cmd: Option<String>,
}

/// The value of a `[sandbox.env]` entry.
#[derive(Debug)]
pub enum EnvValue {
    Literal(String),
    Dynamic(ValueSource),
}

/// A `[sandbox.secrets]` entry: a value, and the hosts it may be sent to.
#[derive(Debug)]
pub struct SecretConfig {
    pub value_from_env: Option<String>,
    pub value: Option<String>,
    pub value_from_cmd: Option<String>,
    pub allowed_hosts: Vec<String>,
}

/// How much of the repository behind a worktree a sandbox sees.
#[derive(Debug, Clone, Copy, PartialEq, Eq, Structural)]
pub enum GitAccess {
    /// Nothing (`none`).
    Nothing,
    /// Everything to read; to write, only what a commit needs (`data`).
    Data,
    /// Everything, to read and write (`full`).
    Full,
}

// ── Sandbox ───────────────────────────────────────────────────────────────────

/// The `[sandbox]` table as written; what is absent is `None`.
#[derive(Debug)]
pub struct RawSandboxConfig {
    pub working_dir: Option<String>,
    pub memory_mb: Option<u32>,
    pub cpus: Option<u8>,
    pub volumes: Vec<String>,
    pub network: NetworkConfig,
    pub env: Table<EnvValue>,
    pub secrets: Table<SecretConfig>,
    pub git_access: Option<GitAccess>,
}

impl RawSandboxConfig {
    /// Whether nothing is set.
    pub open spec fn blank(&self) -> bool {
        &&& self.working_dir is None
        &&& self.memory_mb is None
        &&& self.cpus is None
        &&& self.volumes@ == Seq::<String>::empty()
        &&& !self.network.configured()
        &&& self.env@ == Map::<Seq<char>, EnvValue>::empty()
        &&& self.secrets@ == Map::<Seq<char>, SecretConfig>::empty()
        &&& self.git_access is None
    }
}

impl Default for RawSandboxConfig {
    fn default() -> (r: Self)
        ensures
            r.blank(),
    {
        RawSandboxConfig {
            working_dir: None,
            memory_mb: None,
            cpus: None,
            volumes: Vec::new(),
            network: NetworkConfig::default(),
            env: Table::new(),
            secrets: Table::new(),
            git_access: None,
        }
    }
}

/// The sandbox configuration after user and project have been merged.
#[derive(Debug)]
pub struct SandboxConfig {
    pub working_dir: String,
    pub memory_mb: u32,
    pub cpus: u8,
    pub volumes: Vec<String>,
    pub network: NetworkConfig,
    pub env: Table<EnvValue>,
    pub secrets: Table<SecretConfig>,
    pub git_access: GitAccess,
}

// ── Registry and image ────────────────────────────────────────────────────────

/// The `[registry]` table as written.
#[derive(Debug)]
pub struct RawRegistryConfig {
    pub host: Option<String>,
    pub insecure: Option<bool>,
}

/// Where images are pushed to and pulled from.
#[derive(Debug)]
pub struct RegistryConfig {
    pub host: Option<String>,
    pub insecure: Option<bool>,
}

impl Default for RegistryConfig {
    fn default() -> (r: Self)
        ensures
            r == (RegistryConfig { host: None, insecure: None }),
    {
        RegistryConfig { host: None, insecure: None }
    }
}

/// The `[image]` table of the user's own configuration.
#[derive(Debug)]
pub struct UserImageConfig {
    pub namespace_repository: Option<String>,
    pub version: Option<String>,
}

impl Default for UserImageConfig {
    fn default() -> (r: Self)
        ensures
            r == (UserImageConfig { namespace_repository: None, version: None }),
    {
        UserImageConfig { namespace_repository: None, version: None }
    }
}

/// A file that is injected while a snapshot is made.
#[derive(Debug)]
pub struct SetupFile {
    /// Basename of the file in the guest.
    pub name: String,
    pub content: Vec<u8>,
}

/// The `[image]` table as written.
#[derive(Debug)]
pub struct RawImageConfig {
    pub base_image: Option<String>,
    pub base_snapshot: Option<String>,
    pub dockerfile: Option<String>,
    pub namespace_repository: Option<String>,
    pub version: Option<String>,
    pub setup_script: Option<String>,
    pub setup_script_path: Option<String>,
    /// Paths relative to the configuration file.
    pub setup_files: Vec<String>,
    pub env: Table<String>,
}

/// The image configuration, checked and with the files it names read.
#[derive(Debug)]
pub struct ImageConfig {
    pub base_image: Option<String>,
    pub base_snapshot: Option<String>,
    /// Path of the Dockerfile.
    pub dockerfile: Option<String>,
    pub namespace_repository: Option<String>,
    /// Version tag; absent counts as `1` in an image tag.
    pub version: Option<String>,
    /// Text of the setup script; without one the base is booted as it is.
    pub setup_script: Option<String>,
    pub setup_files: Vec<SetupFile>,
    /// Environment of the sandbox that a snapshot is made in.
    pub env: Table<String>,
}

} // verus!

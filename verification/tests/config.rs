//! Configuration: files, tables, images, volumes and policies.

use sodagun::config::image::snapshot_name_as;
use sodagun::config::image_table::image_reference;
use sodagun::config::load::{config_path, xdg_config_path};
use sodagun::config::{
    default_image_config, dockerfile_image_tag, image_files, image_to_build, load_config,
    load_image_config, load_network_policies, load_network_policies_from_dir,
    load_network_policies_from_path, load_registry_config, load_user_image_config,
    load_user_network_policies, load_user_registry_config,
    load_user_sandbox_config, merge_registry_configs, merge_sandbox_configs,
    merge_user_image_config, parse_volume, snapshot_name, ConfigAction, ConfigDirection,
    ConfigFile, EnvValue, FileRead, GitAccess, ImageConfig, ImageFileReplies, MountFlags,
    NamedPolicy, NetworkConfig, NetworkRule, PolicyFile, PolicyRead, RawImageConfig,
    RawRegistryConfig, RawSandboxConfig, RegistryConfig, SecretConfig, SetupFile, UserConfigFile,
    UserImageConfig, ValueSource, SETUP_SCRIPT_NAME,
};
use sodagun::error::SodagunError;
use sodagun::table::Table;

const PATH: &str = "/project/sodagun.toml";

fn text(s: &str) -> Option<String> {
    Some(s.to_string())
}

fn raw_image() -> RawImageConfig {
    RawImageConfig {
        base_image: None,
        base_snapshot: None,
        dockerfile: None,
        namespace_repository: None,
        version: None,
        setup_script: None,
        setup_script_path: None,
        setup_files: vec![],
        env: Table::new(),
    }
}

fn based_on(image: &str) -> RawImageConfig {
    RawImageConfig { base_image: text(image), ..raw_image() }
}

fn file_of(image: RawImageConfig, sandbox: Option<RawSandboxConfig>) -> FileRead<ConfigFile> {
    FileRead::Parsed(ConfigFile { image: Some(image), sandbox, registry: None })
}

fn no_replies() -> ImageFileReplies {
    ImageFileReplies {
        current_dir: "/cwd".to_string(),
        dockerfile_is_file: false,
        script: Err("No such file or directory (os error 2)".to_string()),
        setup_files: vec![],
    }
}

fn load(image: RawImageConfig) -> Result<ImageConfig, SodagunError> {
    load_config(PATH, file_of(image, None), no_replies()).map(|(i, _)| i)
}

fn load_sandbox(sandbox: RawSandboxConfig) -> RawSandboxConfig {
    load_config(PATH, file_of(based_on("alpine"), Some(sandbox)), no_replies()).unwrap().1
}

fn secret(value: Option<&str>, env: Option<&str>, cmd: Option<&str>, hosts: &[&str]) -> SecretConfig {
    SecretConfig {
        value_from_env: env.map(str::to_string),
        value: value.map(str::to_string),
        value_from_cmd: cmd.map(str::to_string),
        allowed_hosts: hosts.iter().map(|h| h.to_string()).collect(),
    }
}

fn rule(destination: &str) -> NetworkRule {
    NetworkRule {
        direction: ConfigDirection::Egress,
        action: ConfigAction::Allow,
        destination: destination.to_string(),
        protocol: None,
        ports: vec![],
    }
}

// ── [image] ──────────────────────────────────────────────────────────────────

fn base_image_only() {
    let img = load(based_on("alpine:latest")).unwrap();
    assert_eq!(img.base_image.as_deref(), Some("alpine:latest"));
    assert!(img.base_snapshot.is_none());
    assert!(img.setup_script.is_none());
    assert!(img.derived_snapshot_name().is_none());
}

#[test]
fn config_valid_image_base_image_only() {
    base_image_only();
}

#[test]
fn tests_valid_image_base_image_only() {
    base_image_only();
}

fn base_snapshot_only() {
    let img = load(RawImageConfig { base_snapshot: text("my-snap"), ..raw_image() }).unwrap();
    assert!(img.base_image.is_none());
    assert_eq!(img.base_snapshot.as_deref(), Some("my-snap"));
}

#[test]
fn config_valid_image_base_snapshot_only() {
    base_snapshot_only();
}

#[test]
fn tests_valid_image_base_snapshot_only() {
    base_snapshot_only();
}

fn inline_script() {
    let img = load(RawImageConfig {
        setup_script: text("#!/bin/bash\napt-get update\n"),
        ..based_on("debian")
    })
    .unwrap();
    assert!(img.setup_script.is_some());
    assert!(img.derived_snapshot_name().is_some());
}

#[test]
fn config_valid_image_with_inline_script() {
    inline_script();
}

#[test]
fn tests_valid_image_with_inline_script() {
    inline_script();
}

fn script_path() {
    let raw = RawImageConfig {
        setup_script_path: text("/tmp/script"),
        ..based_on("alpine:latest")
    };
    assert_eq!(image_files(&raw, PATH, "/cwd").script.as_deref(), Some("/tmp/script"));
    let replies = ImageFileReplies {
        script: Ok("#!/bin/bash\necho hello\n".to_string()),
        ..no_replies()
    };
    let (img, _) = load_config(PATH, file_of(raw, None), replies).unwrap();
    assert!(img.setup_script.as_deref().unwrap().contains("echo hello"));
}

#[test]
fn config_valid_image_with_script_path() {
    script_path();
}

#[test]
fn tests_valid_image_with_script_path() {
    script_path();
}

fn image_env() {
    let mut env = Table::new();
    env.insert("HOME".to_string(), "/root".to_string());
    env.insert("CUSTOM".to_string(), "value".to_string());
    let img = load(RawImageConfig { env, ..based_on("alpine") }).unwrap();
    assert_eq!(img.env.get("HOME").map(String::as_str), Some("/root"));
    assert_eq!(img.env.get("CUSTOM").map(String::as_str), Some("value"));
}

#[test]
fn config_valid_image_env() {
    image_env();
}

#[test]
fn tests_valid_image_env() {
    image_env();
}

fn image_env_empty() {
    assert!(load(based_on("alpine")).unwrap().env.is_empty());
}

#[test]
fn config_valid_image_env_defaults_empty() {
    image_env_empty();
}

#[test]
fn tests_valid_image_env_defaults_empty() {
    image_env_empty();
}

fn neither_base() {
    let err = load(raw_image()).unwrap_err();
    assert_eq!(err.code, "CONFIG_INVALID");
    assert_eq!(
        err.message,
        "one of 'base_image', 'base_snapshot', or 'dockerfile' is required in [image]"
    );
}

#[test]
fn config_error_image_neither_base() {
    neither_base();
}

#[test]
fn tests_error_image_neither_base() {
    neither_base();
}

fn both_base() {
    let err = load(RawImageConfig { base_snapshot: text("snap"), ..based_on("alpine") }).unwrap_err();
    assert_eq!(err.code, "CONFIG_INVALID");
    assert_eq!(
        err.message,
        "'base_image' and 'base_snapshot' are mutually exclusive in [image]"
    );
}

#[test]
fn config_error_image_both_base() {
    both_base();
}

#[test]
fn tests_error_image_both_base() {
    both_base();
}

fn both_scripts() {
    let err = load(RawImageConfig {
        setup_script: text("#!/bin/sh"),
        setup_script_path: text("./s.sh"),
        ..based_on("alpine")
    })
    .unwrap_err();
    assert_eq!(err.code, "CONFIG_INVALID");
}

#[test]
fn config_error_image_both_scripts() {
    both_scripts();
}

#[test]
fn tests_error_image_both_scripts() {
    both_scripts();
}

fn missing_script_file() {
    let err = load(RawImageConfig {
        setup_script_path: text("/nonexistent/setup.sh"),
        ..based_on("alpine")
    })
    .unwrap_err();
    assert_eq!(err.code, "CONFIG_INVALID");
    assert!(err.message.contains("No such file"));
}

#[test]
fn config_error_image_missing_script_file() {
    missing_script_file();
}

#[test]
fn tests_error_image_missing_script_file() {
    missing_script_file();
}

fn missing_image_section() {
    let sandbox = RawSandboxConfig { working_dir: text("/workspace"), ..Default::default() };
    let read = FileRead::Parsed(ConfigFile { image: None, sandbox: Some(sandbox), registry: None });
    let err = load_config(PATH, read, no_replies()).unwrap_err();
    assert_eq!(err.code, "CONFIG_INVALID");
    assert_eq!(err.message, "[image] section is required in sodagun.toml");
}

#[test]
fn config_error_missing_image_section() {
    missing_image_section();
}

#[test]
fn tests_error_missing_image_section() {
    missing_image_section();
}

fn not_found() {
    let err = load_config("/nonexistent/sodagun.toml", FileRead::Missing, no_replies()).unwrap_err();
    assert_eq!(err.code, "CONFIG_NOT_FOUND");
    assert_eq!(err.message, "no config file at /nonexistent/sodagun.toml");
}

#[test]
fn config_error_config_not_found() {
    not_found();
}

#[test]
fn tests_error_config_not_found() {
    not_found();
}

fn invalid_toml() {
    let err = load_config(PATH, FileRead::Malformed("line 1".to_string()), no_replies()).unwrap_err();
    assert_eq!(err.code, "CONFIG_INVALID");
    assert_eq!(err.message, "invalid TOML: line 1");
}

#[test]
fn config_error_invalid_toml() {
    invalid_toml();
}

#[test]
fn tests_error_invalid_toml() {
    invalid_toml();
}

#[test]
fn unreadable_config_is_refused() {
    let err = load_config(PATH, FileRead::Unreadable("denied".to_string()), no_replies()).unwrap_err();
    assert_eq!((err.code, err.message.as_str()), ("CONFIG_INVALID", "failed to read config: denied"));
    let err = load_image_config(PATH, FileRead::Missing, no_replies()).unwrap_err();
    assert_eq!(err.code, "CONFIG_NOT_FOUND");
}

#[test]
fn dockerfile_excludes_the_other_bases() {
    let with = |raw: RawImageConfig| {
        load(RawImageConfig { dockerfile: text("Dockerfile"), ..raw }).unwrap_err().message
    };
    assert_eq!(
        with(based_on("alpine")),
        "'dockerfile' and 'base_image' are mutually exclusive in [image]"
    );
    assert_eq!(
        with(RawImageConfig { base_snapshot: text("s"), ..raw_image() }),
        "'dockerfile' and 'base_snapshot' are mutually exclusive in [image]"
    );
    assert_eq!(
        with(raw_image()),
        "dockerfile '/project/Dockerfile' does not exist or is not a file"
    );
}

#[test]
fn dockerfile_is_resolved_beside_the_config() {
    let raw = RawImageConfig { dockerfile: text("docker/Dockerfile"), ..raw_image() };
    let replies = ImageFileReplies { dockerfile_is_file: true, ..no_replies() };
    let (img, _) = load_config(PATH, file_of(raw, None), replies).unwrap();
    assert_eq!(img.dockerfile.as_deref(), Some("/project/docker/Dockerfile"));
}

fn dockerfile_from(current: &str, config: &str, named: &str, is_file: bool) -> Result<String, String> {
    let raw = RawImageConfig { dockerfile: text(named), ..raw_image() };
    let files = image_files(&raw, config, current);
    let replies = ImageFileReplies {
        current_dir: current.to_string(),
        dockerfile_is_file: is_file,
        ..no_replies()
    };
    match load_image_config(config, file_of(raw, None), replies) {
        Ok(image) => {
            assert_eq!(image.dockerfile, files.dockerfile);
            image_to_build(&image).map_err(|e| e.message)
        }
        Err(e) => Err(e.message),
    }
}

#[test]
fn dockerfile_path_is_absolute() {
    let found = |config: &str, named: &str| dockerfile_from("/work/app", config, named, true).unwrap();
    assert_eq!(found("sodagun.toml", "Dockerfile"), "/work/app/Dockerfile");
    assert_eq!(found("sub/sodagun.toml", "./Dockerfile"), "/work/app/sub/./Dockerfile");
    assert_eq!(found("sub/sodagun.toml", "/etc/Dockerfile"), "/etc/Dockerfile");
    assert_eq!(found("/project/sodagun.toml", "Dockerfile"), "/project/Dockerfile");
    assert_eq!(
        dockerfile_from("/work/app", "sodagun.toml", "Dockerfile", false).unwrap_err(),
        "dockerfile '/work/app/Dockerfile' does not exist or is not a file"
    );
}

#[test]
fn without_a_dockerfile_nothing_is_built() {
    let err = image_to_build(&default_image_config()).unwrap_err();
    assert_eq!(err.code, "CONFIG_INVALID");
    assert_eq!(err.message, "no 'dockerfile' in [image] — nothing to build");
}

#[test]
fn image_tags_are_digests_of_dockerfile_and_version() {
    let mut image = default_image_config();
    image.namespace_repository = text("team/app");
    let registry = RegistryConfig { host: text("registry.local"), insecure: None };
    assert_eq!(
        dockerfile_image_tag(&image, &registry, b"FROM alpine\n").unwrap(),
        "registry.local/team/app:fON1RIdFJJm0"
    );
    image.version = text("7");
    assert_eq!(
        dockerfile_image_tag(&image, &registry, b"FROM alpine\n").unwrap(),
        "registry.local/team/app:go7eMQi1RrLa"
    );
    let err = dockerfile_image_tag(&image, &RegistryConfig::default(), b"").unwrap_err();
    assert_eq!(err.message, "registry.host is required when using a dockerfile");
    let err = dockerfile_image_tag(&default_image_config(), &registry, b"").unwrap_err();
    assert_eq!(err.message, "image.namespace_repository is required when using a dockerfile");
}

#[test]
fn default_image_is_alpine() {
    let image = default_image_config();
    assert_eq!(image.base_image.as_deref(), Some("alpine:latest"));
    assert_eq!(image.base(), "alpine:latest");
    assert!(image.derived_snapshot_name().is_none());
    assert!(image.setup_files.is_empty() && image.env.is_empty());
}

// ── [sandbox] ────────────────────────────────────────────────────────────────

fn sandbox_defaults() {
    let (_, raw) = load_config(PATH, file_of(based_on("debian"), None), no_replies()).unwrap();
    assert!(raw.working_dir.is_none());
    assert!(raw.memory_mb.is_none());
    assert!(raw.cpus.is_none());
    assert!(raw.network.policy.is_none());
}

#[test]
fn config_valid_sandbox_defaults() {
    sandbox_defaults();
}

#[test]
fn tests_valid_sandbox_defaults() {
    sandbox_defaults();
}

fn sandbox_full() {
    let mut given = RawSandboxConfig {
        working_dir: text("/app"),
        memory_mb: Some(1024),
        cpus: Some(2),
        volumes: vec!["~/.config/agent:/root/.config/agent:ro".to_string()],
        network: NetworkConfig { policy: text("public-only"), ..Default::default() },
        ..Default::default()
    };
    given.env.insert("TERM".to_string(), EnvValue::Literal("xterm-256color".to_string()));
    given.secrets.insert(
        "ANTHROPIC_API_KEY".to_string(),
        secret(None, Some("ANTHROPIC_API_KEY"), None, &["api.anthropic.com"]),
    );
    let raw = load_sandbox(given);
    assert_eq!(raw.memory_mb, Some(1024));
    assert_eq!(raw.cpus, Some(2));
    assert_eq!(raw.network.policy.as_deref(), Some("public-only"));
    assert_eq!(raw.volumes, ["~/.config/agent:/root/.config/agent:ro"]);
    assert!(matches!(
        raw.env.get("TERM"),
        Some(EnvValue::Literal(s)) if s == "xterm-256color"
    ));
    let secret = raw.secrets.get("ANTHROPIC_API_KEY").unwrap();
    assert_eq!(secret.value_from_env.as_deref(), Some("ANTHROPIC_API_KEY"));
}

#[test]
fn config_valid_sandbox_full() {
    sandbox_full();
}

#[test]
fn tests_valid_sandbox_full() {
    sandbox_full();
}

fn from_cmd_parses() {
    let mut given = RawSandboxConfig::default();
    given.secrets.insert(
        "MY_SECRET".to_string(),
        secret(None, None, Some("security find-generic-password -w -s my-service"), &[]),
    );
    let raw = load_sandbox(given);
    let secret = raw.secrets.get("MY_SECRET").unwrap();
    assert_eq!(
        secret.value_from_cmd.as_deref(),
        Some("security find-generic-password -w -s my-service")
    );
    assert!(secret.value.is_none());
    assert!(secret.value_from_env.is_none());
}

#[test]
fn config_value_from_cmd_parses() {
    from_cmd_parses();
}

#[test]
fn tests_value_from_cmd_parses() {
    from_cmd_parses();
}

fn from_cmd_with_value_parses() {
    let mut given = RawSandboxConfig::default();
    given
        .secrets
        .insert("MY_SECRET".to_string(), secret(Some("literal"), None, Some("echo secret"), &[]));
    let raw = load_sandbox(given);
    let secret = raw.secrets.get("MY_SECRET").unwrap();
    assert_eq!(secret.value.as_deref(), Some("literal"));
    assert_eq!(secret.value_from_cmd.as_deref(), Some("echo secret"));
}

#[test]
fn config_value_from_cmd_with_value_parses() {
    from_cmd_with_value_parses();
}

#[test]
fn tests_value_from_cmd_with_value_parses() {
    from_cmd_with_value_parses();
}

fn dynamic_parses() {
    let mut given = RawSandboxConfig::default();
    given.env.insert("TERM".to_string(), EnvValue::Literal("xterm-256color".to_string()));
    given.env.insert(
        "MY_TOKEN".to_string(),
        EnvValue::Dynamic(ValueSource {
            value: None,
            value_from_env: None,
            value_from_cmd: text("echo secret"),
        }),
    );
    let raw = load_sandbox(given);
    assert!(matches!(raw.env.get("TERM"), Some(EnvValue::Literal(s)) if s == "xterm-256color"));
    let dynamic = raw.env.get("MY_TOKEN").unwrap();
    assert!(
        matches!(dynamic, EnvValue::Dynamic(src) if src.value_from_cmd.as_deref() == Some("echo secret"))
    );
}

#[test]
fn config_env_value_dynamic_parses() {
    dynamic_parses();
}

#[test]
fn tests_env_value_dynamic_parses() {
    dynamic_parses();
}

// ── Network policies ─────────────────────────────────────────────────────────

fn my_policy() -> NamedPolicy {
    NamedPolicy {
        default_egress: Some(ConfigAction::Deny),
        default_ingress: Some(ConfigAction::Allow),
        rules: vec![rule("api.example.com")],
    }
}

fn denying() -> NamedPolicy {
    NamedPolicy { default_egress: Some(ConfigAction::Deny), default_ingress: None, rules: vec![] }
}

fn policy_file(name: &str, read: PolicyRead) -> PolicyFile {
    PolicyFile { file_name: name.to_string(), read }
}

fn check_my_policy(map: &Table<NamedPolicy>) {
    let policy = map.get("my-policy").unwrap();
    assert_eq!(policy.default_egress, Some(ConfigAction::Deny));
    assert_eq!(policy.default_ingress, Some(ConfigAction::Allow));
    assert_eq!(policy.rules.len(), 1);
    assert_eq!(policy.rules[0].destination, "api.example.com");
}

#[test]
fn load_network_policies_missing_file_returns_empty() {
    let (map, exists) = load_network_policies_from_path(FileRead::Missing).unwrap();
    assert!(!exists);
    assert!(map.is_empty());
}

#[test]
fn load_network_policies_valid_toml() {
    let mut given = Table::new();
    given.insert("my-policy".to_string(), my_policy());
    let (map, exists) = load_network_policies_from_path(FileRead::Parsed(given)).unwrap();
    assert!(exists);
    check_my_policy(&map);
}

#[test]
fn config_load_network_policies_malformed_toml() {
    let err =
        load_network_policies_from_path(FileRead::Malformed("line 1".to_string())).unwrap_err();
    assert_eq!(err.code, "CONFIG_INVALID");
    assert_eq!(err.message, "invalid network policies TOML: line 1");
}

#[test]
fn config_load_network_policies_reserved_name_rejected() {
    for reserved in ["none", "allow-all", "public-only"] {
        let mut given = Table::new();
        given.insert(reserved.to_string(), denying());
        let err = load_network_policies_from_path(FileRead::Parsed(given)).unwrap_err();
        assert_eq!(err.code, "CONFIG_INVALID", "expected error for '{reserved}'");
        assert!(
            err.message.contains(reserved),
            "error should mention the reserved name '{reserved}'; got: {}",
            err.message
        );
    }
}

#[test]
fn load_network_policies_missing_dir_returns_empty() {
    let (map, exists) = load_network_policies_from_dir(FileRead::Missing).unwrap();
    assert!(!exists);
    assert!(map.is_empty());
}

#[test]
fn load_network_policies_valid_dir() {
    let found = vec![policy_file("my-policy.toml", PolicyRead::Parsed(my_policy()))];
    let (map, exists) = load_network_policies_from_dir(FileRead::Parsed(found)).unwrap();
    assert!(exists);
    check_my_policy(&map);
}

#[test]
fn load_network_policies_non_toml_files_ignored() {
    let found = vec![
        policy_file("README.md", PolicyRead::Malformed("not TOML".to_string())),
        policy_file("my-policy.toml", PolicyRead::Parsed(denying())),
        policy_file(".toml", PolicyRead::Parsed(denying())),
    ];
    let (map, exists) = load_network_policies_from_dir(FileRead::Parsed(found)).unwrap();
    assert!(exists);
    assert_eq!(map.len(), 1);
    assert!(map.contains_key("my-policy"));
}

#[test]
fn tests_load_network_policies_malformed_toml() {
    let found = vec![policy_file("bad.toml", PolicyRead::Malformed("line 1".to_string()))];
    let err = load_network_policies_from_dir(FileRead::Parsed(found)).unwrap_err();
    assert_eq!(err.code, "CONFIG_INVALID");
}

#[test]
fn tests_load_network_policies_reserved_name_rejected() {
    for reserved in ["none", "allow-all", "public-only"] {
        let found = vec![policy_file(&format!("{reserved}.toml"), PolicyRead::Parsed(denying()))];
        let err = load_network_policies_from_dir(FileRead::Parsed(found)).unwrap_err();
        assert_eq!(err.code, "CONFIG_INVALID", "expected error for '{reserved}'");
        assert!(
            err.message.contains(reserved),
            "error should mention the reserved name '{reserved}'; got: {}",
            err.message
        );
    }
}

#[test]
fn policies_of_the_file_come_with_its_path() {
    let mut file = Table::new();
    file.insert("mine".to_string(), my_policy());
    let (map, path) = load_network_policies(text("/p.toml"), FileRead::Parsed(file)).unwrap();
    assert_eq!(map.get("mine").unwrap().rules.len(), 1);
    assert_eq!(path.as_deref(), Some("/p.toml"));
    let (map, path) = load_network_policies(text("/p.toml"), FileRead::Missing).unwrap();
    assert!(map.is_empty() && path.is_none());
    let (map, path) = load_network_policies(None, FileRead::NoPath).unwrap();
    assert!(map.is_empty() && path.is_none());
    let err = load_network_policies(text("/p.toml"), FileRead::Malformed("line 1".to_string()))
        .unwrap_err();
    assert_eq!(err.message, "invalid network policies TOML: line 1");
}

#[test]
fn policies_of_file_and_directory_together() {
    let mut file = Table::new();
    file.insert("shared".to_string(), denying());
    file.insert("only-file".to_string(), denying());
    let found = vec![
        policy_file("shared.toml", PolicyRead::Parsed(my_policy())),
        policy_file("only-dir.toml", PolicyRead::Parsed(denying())),
    ];
    let (map, dir) = load_user_network_policies(
        text("/p.toml"),
        FileRead::Parsed(file),
        text("/d"),
        FileRead::Parsed(found),
    )
    .unwrap();
    assert_eq!(map.len(), 3);
    assert_eq!(map.get("shared").unwrap().rules.len(), 1);
    assert_eq!(dir.as_deref(), Some("/d"));
    let (map, dir) =
        load_user_network_policies(None, FileRead::NoPath, text("/d"), FileRead::Missing).unwrap();
    assert!(map.is_empty());
    assert!(dir.is_none());
    let err = load_user_network_policies(
        text("/p.toml"),
        FileRead::Missing,
        text("/d"),
        FileRead::Unreadable("denied".to_string()),
    )
    .unwrap_err();
    assert_eq!(err.code, "CONFIG_INVALID");
}

// ── Merging ──────────────────────────────────────────────────────────────────

fn conflict() {
    let mut raw = RawSandboxConfig::default();
    raw.env.insert("MY_KEY".to_string(), EnvValue::Literal("val".to_string()));
    raw.secrets.insert(
        "MY_KEY".to_string(),
        SecretConfig {
            value_from_env: Some("MY_KEY".to_string()),
            value: None,
            value_from_cmd: None,
            allowed_hosts: vec![],
        },
    );
    let err = merge_sandbox_configs(None, raw).unwrap_err();
    assert_eq!(err.code, "CONFIG_INVALID");
    assert_eq!(err.message, "'MY_KEY' appears in both [sandbox.env] and [sandbox.secrets]");
}

#[test]
fn config_error_env_secret_conflict_still_detected_via_merge() {
    conflict();
}

#[test]
fn tests_error_env_secret_conflict_still_detected_via_merge() {
    conflict();
}

#[test]
fn config_merge_env_secret_conflict_returns_error() {
    conflict();
}

#[test]
fn tests_merge_env_secret_conflict_returns_error() {
    conflict();
}

#[test]
fn conflict_between_user_and_project() {
    let mut user = RawSandboxConfig::default();
    user.secrets.insert("K".to_string(), secret(Some("s"), None, None, &[]));
    let mut project = RawSandboxConfig::default();
    project.env.insert("K".to_string(), EnvValue::Literal("v".to_string()));
    assert!(merge_sandbox_configs(Some(user), project).is_err());
}

fn volumes_user_first() {
    let user = RawSandboxConfig {
        volumes: vec!["~/.config/agent:/root/.config/agent:ro".to_string()],
        ..Default::default()
    };
    let project =
        RawSandboxConfig { volumes: vec!["/data:/data".to_string()], ..Default::default() };
    let merged = merge_sandbox_configs(Some(user), project).unwrap();
    assert_eq!(merged.volumes, ["~/.config/agent:/root/.config/agent:ro", "/data:/data"]);
}

#[test]
fn config_merge_volumes_concatenated_user_first() {
    volumes_user_first();
}

#[test]
fn tests_merge_volumes_concatenated_user_first() {
    volumes_user_first();
}

fn env_project_wins() {
    let mut user = RawSandboxConfig::default();
    user.env.insert("TERM".to_string(), EnvValue::Literal("dumb".to_string()));
    user.env.insert("USER_ONLY".to_string(), EnvValue::Literal("yes".to_string()));
    let mut project = RawSandboxConfig::default();
    project.env.insert("TERM".to_string(), EnvValue::Literal("xterm-256color".to_string()));
    let merged = merge_sandbox_configs(Some(user), project).unwrap();
    assert!(matches!(merged.env.get("TERM"), Some(EnvValue::Literal(s)) if s == "xterm-256color"));
    assert!(matches!(merged.env.get("USER_ONLY"), Some(EnvValue::Literal(s)) if s == "yes"));
}

#[test]
fn config_merge_env_project_wins_on_conflict() {
    env_project_wins();
}

#[test]
fn tests_merge_env_project_wins_on_conflict() {
    env_project_wins();
}

fn scalars_project_wins() {
    let user = RawSandboxConfig {
        working_dir: Some("/user".to_string()),
        memory_mb: Some(256),
        cpus: Some(1),
        ..Default::default()
    };
    let project = RawSandboxConfig {
        working_dir: Some("/project".to_string()),
        memory_mb: Some(1024),
        ..Default::default()
    };
    let merged = merge_sandbox_configs(Some(user), project).unwrap();
    assert_eq!(merged.working_dir, "/project");
    assert_eq!(merged.memory_mb, 1024);
    assert_eq!(merged.cpus, 1);
}

#[test]
fn config_merge_scalars_project_wins_over_user() {
    scalars_project_wins();
}

#[test]
fn tests_merge_scalars_project_wins_over_user() {
    scalars_project_wins();
}

fn scalar_defaults() {
    let merged = merge_sandbox_configs(None, RawSandboxConfig::default()).unwrap();
    assert_eq!(merged.working_dir, "/workspace");
    assert_eq!(merged.memory_mb, 512);
    assert_eq!(merged.cpus, 1);
}

#[test]
fn config_merge_scalars_defaults_when_neither_set() {
    scalar_defaults();
}

#[test]
fn tests_merge_scalars_defaults_when_neither_set() {
    scalar_defaults();
}

fn policy_project_wins() {
    let mut user = RawSandboxConfig::default();
    user.network.policy = Some("allow-all".to_string());
    let mut project = RawSandboxConfig::default();
    project.network.policy = Some("none".to_string());
    let merged = merge_sandbox_configs(Some(user), project).unwrap();
    assert_eq!(merged.network.policy.as_deref(), Some("none"));
}

#[test]
fn config_merge_network_policy_project_wins() {
    policy_project_wins();
}

#[test]
fn tests_merge_network_policy_project_wins() {
    policy_project_wins();
}

fn rules_user_first() {
    let mut user = RawSandboxConfig::default();
    user.network.rules = vec![rule("user-api.example.com")];
    let mut project = RawSandboxConfig::default();
    project.network.rules = vec![rule("project-api.example.com")];
    let merged = merge_sandbox_configs(Some(user), project).unwrap();
    assert_eq!(merged.network.rules.len(), 2);
    assert_eq!(merged.network.rules[0].destination, "user-api.example.com");
    assert_eq!(merged.network.rules[1].destination, "project-api.example.com");
}

#[test]
fn config_merge_network_rules_concatenated_user_first() {
    rules_user_first();
}

#[test]
fn tests_merge_network_rules_concatenated_user_first() {
    rules_user_first();
}

#[test]
fn git_access_parses_and_merges() {
    let raw = load_sandbox(RawSandboxConfig {
        git_access: Some(GitAccess::Data),
        ..Default::default()
    });
    assert_eq!(raw.git_access, Some(GitAccess::Data));

    let user = RawSandboxConfig { git_access: Some(GitAccess::Full), ..Default::default() };
    let merged = merge_sandbox_configs(Some(user), raw).unwrap();
    assert_eq!(merged.git_access, GitAccess::Data);

    let merged = merge_sandbox_configs(None, RawSandboxConfig::default()).unwrap();
    assert_eq!(merged.git_access, GitAccess::Nothing);
}

#[test]
fn registries_merge_field_by_field() {
    let user = RegistryConfig { host: text("user"), insecure: Some(true) };
    let project = RegistryConfig { host: text("project"), insecure: None };
    let merged = merge_registry_configs(user, project);
    assert_eq!(merged.host.as_deref(), Some("project"));
    assert_eq!(merged.insecure, Some(true));
}

#[test]
fn user_image_fills_gaps() {
    let mut project = default_image_config();
    project.version = text("2");
    let user = UserImageConfig { namespace_repository: text("me/app"), version: text("9") };
    let merged = merge_user_image_config(user, project);
    assert_eq!(merged.namespace_repository.as_deref(), Some("me/app"));
    assert_eq!(merged.version.as_deref(), Some("2"));
    assert_eq!(merged.base_image.as_deref(), Some("alpine:latest"));
}

// ── Files of the user ────────────────────────────────────────────────────────

#[test]
fn user_directories() {
    assert_eq!(config_path("sodagun.toml", Some("/x"), Some("/h")).as_deref(), Some("/x/sodagun/sodagun.toml"));
    assert_eq!(config_path("sodagun.toml", None, Some("/h")).as_deref(), Some("/h/.config/sodagun/sodagun.toml"));
    assert_eq!(config_path("sodagun.toml", None, None), None);
    assert_eq!(xdg_config_path("a/b", Some("/x/"), None).as_deref(), Some("/x/a/b"));
}

#[test]
fn user_tables() {
    let file = || {
        FileRead::Parsed(UserConfigFile {
            sandbox: Some(RawSandboxConfig { cpus: Some(3), ..Default::default() }),
            image: Some(UserImageConfig { namespace_repository: text("n"), version: None }),
            registry: Some(RawRegistryConfig { host: text("h"), insecure: Some(false) }),
        })
    };
    assert_eq!(load_user_sandbox_config(file()).unwrap().unwrap().cpus, Some(3));
    assert_eq!(load_user_image_config(file()).unwrap().namespace_repository.as_deref(), Some("n"));
    let registry = load_user_registry_config(file()).unwrap();
    assert_eq!((registry.host.as_deref(), registry.insecure), (Some("h"), Some(false)));
    assert!(load_user_sandbox_config(FileRead::NoPath).unwrap().is_none());
    assert!(load_user_registry_config(FileRead::Missing).unwrap().host.is_none());
    let err = load_user_image_config(FileRead::Malformed("m".to_string())).unwrap_err();
    assert_eq!((err.code, err.message.as_str()), ("CONFIG_INVALID", "invalid TOML in user config: m"));
    let err = load_user_sandbox_config(FileRead::Unreadable("u".to_string())).unwrap_err();
    assert_eq!(err.message, "failed to read user config: u");
}

#[test]
fn project_registry() {
    let read = FileRead::Parsed(ConfigFile {
        image: None,
        sandbox: None,
        registry: Some(RawRegistryConfig { host: text("h"), insecure: None }),
    });
    assert_eq!(load_registry_config(read).unwrap().host.as_deref(), Some("h"));
    assert!(load_registry_config(FileRead::Missing).unwrap().host.is_none());
    let err = load_registry_config(FileRead::Malformed("m".to_string())).unwrap_err();
    assert_eq!(err.message, "invalid TOML: m");
}

// ── Snapshot names ───────────────────────────────────────────────────────────

fn name_deterministic() {
    let a = snapshot_name("alpine:latest", "#!/bin/sh\napk add git\n", &[]);
    let b = snapshot_name("alpine:latest", "#!/bin/sh\napk add git\n", &[]);
    assert_eq!(a, b);
}

#[test]
fn config_snapshot_name_deterministic() {
    name_deterministic();
}

#[test]
fn tests_snapshot_name_deterministic() {
    name_deterministic();
}

fn name_changes_with_script() {
    let a = snapshot_name("alpine:latest", "#!/bin/sh\napk add git\n", &[]);
    let b = snapshot_name("alpine:latest", "#!/bin/sh\napk add curl\n", &[]);
    assert_ne!(a, b);
}

#[test]
fn config_snapshot_name_changes_with_script() {
    name_changes_with_script();
}

#[test]
fn tests_snapshot_name_changes_with_script() {
    name_changes_with_script();
}

fn name_sanitizes_image() {
    let name = snapshot_name("alpine:latest", "#!/bin/sh\n", &[]);
    assert!(name.starts_with("alpine-latest_"));
}

#[test]
fn config_snapshot_name_sanitizes_image() {
    name_sanitizes_image();
}

#[test]
fn tests_snapshot_name_sanitizes_image() {
    name_sanitizes_image();
}

fn name_sanitizes_slash() {
    let name = snapshot_name("ghcr.io/foo/bar:v1", "#!/bin/sh\n", &[]);
    assert!(name.starts_with("ghcr.io-foo-bar-v1_"));
}

#[test]
fn config_snapshot_name_sanitizes_slash_and_at() {
    name_sanitizes_slash();
}

#[test]
fn tests_snapshot_name_sanitizes_slash_and_at() {
    name_sanitizes_slash();
}

fn name_hash_length() {
    let name = snapshot_name("alpine:latest", "#!/bin/sh\n", &[]);
    let hash_part = name.rsplit_once('_').unwrap().1;
    assert_eq!(hash_part.len(), 12);
}

#[test]
fn config_snapshot_name_hash_length() {
    name_hash_length();
}

#[test]
fn tests_snapshot_name_hash_length() {
    name_hash_length();
}

fn name_changes_with_file() {
    let files_a = vec![SetupFile {
        name: "rust-toolchain.toml".to_string(),
        content: b"[toolchain]\nchannel = \"1.85\"".to_vec(),
    }];
    let files_b = vec![SetupFile {
        name: "rust-toolchain.toml".to_string(),
        content: b"[toolchain]\nchannel = \"1.86\"".to_vec(),
    }];
    let a = snapshot_name("alpine:latest", "#!/bin/sh\n", &files_a);
    let b = snapshot_name("alpine:latest", "#!/bin/sh\n", &files_b);
    assert_ne!(a, b);
}

#[test]
fn config_snapshot_name_changes_with_setup_file_content() {
    name_changes_with_file();
}

#[test]
fn tests_snapshot_name_changes_with_setup_file_content() {
    name_changes_with_file();
}

fn lock_file() -> SetupFile {
    SetupFile { name: "Cargo.lock".to_string(), content: b"[lock-file]".to_vec() }
}

fn toolchain_file() -> SetupFile {
    SetupFile { name: "rust-toolchain.toml".to_string(), content: b"[toolchain]".to_vec() }
}

fn name_stable() {
    let files = vec![lock_file(), toolchain_file()];
    let a = snapshot_name("alpine:latest", "#!/bin/sh\n", &files);
    let b = snapshot_name("alpine:latest", "#!/bin/sh\n", &files);
    assert_eq!(a, b);
}

#[test]
fn config_snapshot_name_stable_with_same_setup_files() {
    name_stable();
}

#[test]
fn tests_snapshot_name_stable_with_same_setup_files() {
    name_stable();
}

#[test]
fn snapshot_name_exact() {
    assert_eq!(snapshot_name("alpine:latest", "#!/bin/sh\n", &[]), "alpine-latest_qAdtPSjSHgIB");
    let files = vec![toolchain_file(), lock_file()];
    assert_eq!(
        snapshot_name("a@b", "#!/bin/sh\n", &files),
        "a-b_cT8QsncG5SYo",
        "files are taken in the order of their names"
    );
}

#[test]
fn snapshot_name_ignores_the_order_of_files() {
    let a = snapshot_name("b", "s", &[lock_file(), toolchain_file()]);
    let b = snapshot_name("b", "s", &[toolchain_file(), lock_file()]);
    assert_eq!(a, b);
    let other = SetupFile { name: "Cargo.lock".to_string(), content: b"other".to_vec() };
    let again = SetupFile { name: "Cargo.lock".to_string(), content: b"other".to_vec() };
    let a = snapshot_name("b", "s", &[lock_file(), other]);
    let b = snapshot_name("b", "s", &[again, lock_file()]);
    assert_ne!(a, b, "files of one name keep their order");
}

#[test]
fn names_from_tags() {
    assert_eq!(snapshot_name_as("ghcr.io/a_b:v1", "0123_5678901"), "ghcr.io-a-b-v1_0123_5678901");
    assert_eq!(image_reference("h", "n/r", "t"), "h/n/r:t");
}

#[test]
fn snapshot_name_of_an_image() {
    let mut image = default_image_config();
    image.setup_script = text("#!/bin/sh\n");
    assert_eq!(image.derived_snapshot_name().as_deref(), Some("alpine-latest_qAdtPSjSHgIB"));
    image.base_image = None;
    image.base_snapshot = text("base");
    assert_eq!(image.derived_snapshot_name().as_deref(), Some("base_qAdtPSjSHgIB"));
    image.base_snapshot = None;
    assert_eq!(image.base(), "");
}

// ── Setup files ──────────────────────────────────────────────────────────────

fn with_setup_file(name: &str) -> RawImageConfig {
    RawImageConfig {
        setup_script: text("#!/bin/sh\n"),
        setup_files: vec![name.to_string()],
        ..based_on("alpine")
    }
}

fn load_with(raw: RawImageConfig, reply: Result<Vec<u8>, String>) -> Result<ImageConfig, SodagunError> {
    let replies = ImageFileReplies { setup_files: vec![reply], ..no_replies() };
    load_config(PATH, file_of(raw, None), replies).map(|(i, _)| i)
}

fn setup_files_resolved() {
    let raw = with_setup_file("rust-toolchain.toml");
    assert_eq!(image_files(&raw, PATH, "/cwd").setup_files, ["/project/rust-toolchain.toml"]);
    let img = load_with(raw, Ok(b"[toolchain]\nchannel = \"stable\"".to_vec())).unwrap();
    assert_eq!(img.setup_files.len(), 1);
    assert_eq!(img.setup_files[0].name, "rust-toolchain.toml");
    assert!(img.setup_files[0].content.starts_with(b"[toolchain]"));
}

#[test]
fn config_setup_files_parsed_and_resolved() {
    setup_files_resolved();
}

#[test]
fn tests_setup_files_parsed_and_resolved() {
    setup_files_resolved();
}

fn setup_files_missing() {
    let err = load_with(with_setup_file("nonexistent.toml"), Err("gone".to_string())).unwrap_err();
    assert_eq!(err.code, "CONFIG_INVALID");
    assert_eq!(
        err.message,
        "failed to read setup_files entry '/project/nonexistent.toml': gone"
    );
}

#[test]
fn config_setup_files_missing_file_returns_config_invalid() {
    setup_files_missing();
}

#[test]
fn tests_setup_files_missing_file_returns_config_invalid() {
    setup_files_missing();
}

fn setup_files_reserved() {
    let err = load_with(with_setup_file(SETUP_SCRIPT_NAME), Ok(b"x".to_vec())).unwrap_err();
    assert_eq!(err.code, "CONFIG_INVALID");
    assert_eq!(err.message, "setup_files entry '_setup' uses reserved name '_setup'");
}

#[test]
fn config_setup_files_reserved_name_returns_config_invalid() {
    setup_files_reserved();
}

#[test]
fn tests_setup_files_reserved_name_returns_config_invalid() {
    setup_files_reserved();
}

#[test]
fn setup_files_need_a_name() {
    let err = load_with(with_setup_file(".."), Ok(vec![])).unwrap_err();
    assert_eq!(err.message, "setup_files entry '..' has a non-UTF-8 basename");
}

// ── Volumes ──────────────────────────────────────────────────────────────────

const HOME: Option<&str> = Some("/home/me");

fn volume_basic() {
    let (host, guest, flags) = parse_volume("/host/path:/guest/path", HOME).unwrap();
    assert_eq!(host, "/host/path");
    assert_eq!(guest, "/guest/path");
    assert_eq!(flags, MountFlags::default());
    assert!(!flags.readonly);
}

#[test]
fn config_parse_volume_basic() {
    volume_basic();
}

#[test]
fn tests_parse_volume_basic() {
    volume_basic();
}

fn volume_readonly() {
    let (_, _, flags) = parse_volume("/host:/guest:ro", HOME).unwrap();
    assert!(flags.readonly);
    assert!(!flags.noexec);
}

#[test]
fn config_parse_volume_readonly() {
    volume_readonly();
}

#[test]
fn tests_parse_volume_readonly() {
    volume_readonly();
}

#[test]
fn parse_volume_noexec() {
    let (_, _, flags) = parse_volume("/host:/guest:noexec", HOME).unwrap();
    assert!(!flags.readonly);
    assert!(flags.noexec);
}

#[test]
fn parse_volume_ro_and_noexec() {
    let (_, _, flags) = parse_volume("/host:/guest:ro,noexec", HOME).unwrap();
    assert!(flags.readonly);
    assert!(flags.noexec);
}

#[test]
fn parse_volume_explicit_rw() {
    let (_, _, flags) = parse_volume("/host:/guest:rw", HOME).unwrap();
    assert_eq!(flags, MountFlags::default());
}

#[test]
fn parse_volume_unknown_option_error() {
    let err = parse_volume("/host:/guest:nosuid", HOME).unwrap_err();
    assert_eq!(err.code, "CONFIG_INVALID");
    assert!(err.message.contains("nosuid"), "{}", err.message);
}

fn volume_tilde() {
    let (host, _, _) = parse_volume("~/.config/agent:/root/.config/agent:ro", HOME).unwrap();
    assert_eq!(host, "/home/me/.config/agent");
}

#[test]
fn config_parse_volume_tilde_expansion() {
    volume_tilde();
}

#[test]
fn tests_parse_volume_tilde_expansion() {
    volume_tilde();
}

fn volume_no_home() {
    let err = parse_volume("~/.config:/root/.config", None).unwrap_err();
    assert_eq!(err.code, "CONFIG_INVALID");
    assert_eq!(err.message, "cannot expand '~' in volume: $HOME is not set");
}

#[test]
fn config_parse_volume_no_home_error() {
    volume_no_home();
}

#[test]
fn tests_parse_volume_no_home_error() {
    volume_no_home();
}

fn volume_missing_guest() {
    let err = parse_volume("/only-host", HOME).unwrap_err();
    assert_eq!(err.code, "CONFIG_INVALID");
    assert_eq!(err.message, "volume '/only-host' must be 'host:guest' or 'host:guest:OPTIONS'");
}

#[test]
fn config_parse_volume_missing_guest_error() {
    volume_missing_guest();
}

#[test]
fn tests_parse_volume_missing_guest_error() {
    volume_missing_guest();
}

#[test]
fn volume_edges() {
    let (host, guest, flags) = parse_volume("::", HOME).unwrap();
    assert_eq!((host.as_str(), guest.as_str()), ("", ""));
    assert_eq!(flags, MountFlags::default());
    let (host, _, _) = parse_volume("~x:/g", HOME).unwrap();
    assert_eq!(host, "/home/mex");
    let (_, _, flags) = parse_volume("/a:/b:,ro,", HOME).unwrap();
    assert!(flags.readonly);
    let err = parse_volume("~/a:/b:bad", None).unwrap_err();
    assert_eq!(err.message, "unknown mount option 'bad' in volume '~/a:/b:bad'");
    let err = parse_volume("/a:/b:ro:x", HOME).unwrap_err();
    assert_eq!(err.message, "unknown mount option 'ro:x' in volume '/a:/b:ro:x'");
}

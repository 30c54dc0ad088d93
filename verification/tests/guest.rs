//! Commands in the guest.

use sodagun::guest::{
    build_guest_invocation, collect_env, shell_single_quote, validate_and_extract_env_kv,
};
use sodagun::table::Table;

fn cmd(s: &str) -> Vec<String> {
    vec![s.to_string()]
}

fn cmd_args(s: &str, rest: &[&str]) -> Vec<String> {
    std::iter::once(s.to_string()).chain(rest.iter().map(|s| s.to_string())).collect()
}

fn env_of(pairs: &[(&str, &str)]) -> Table<String> {
    let mut t = Table::new();
    for (k, v) in pairs {
        t.insert(k.to_string(), v.to_string());
    }
    t
}

#[test]
fn validate_env_kv_simple_key() {
    let (k, v) = validate_and_extract_env_kv("FOO=bar").unwrap();
    assert_eq!(k, "FOO");
    assert_eq!(v, "bar");
}

#[test]
fn validate_env_kv_key_with_spaces() {
    assert!(validate_and_extract_env_kv("MY KEY=value").is_ok());
}

#[test]
fn validate_env_kv_missing_equals_rejected() {
    let err = validate_and_extract_env_kv("FOOBAR").unwrap_err();
    assert_eq!(err.code, "CONFIG_INVALID");
    assert!(err.message.contains("KEY=VALUE"));
}

#[test]
fn validate_env_kv_newline_in_key_rejected() {
    let err = validate_and_extract_env_kv("FOO\nBAR=value").unwrap_err();
    assert_eq!(err.code, "CONFIG_INVALID");
}

#[test]
fn validate_env_kv_nul_in_key_rejected() {
    let err = validate_and_extract_env_kv("FOO\0BAR=value").unwrap_err();
    assert_eq!(err.code, "CONFIG_INVALID");
}

#[test]
fn validate_env_kv_newline_in_value_rejected() {
    let err = validate_and_extract_env_kv("FOOBAR=baz\n").unwrap_err();
    assert_eq!(err.code, "CONFIG_INVALID");
}

#[test]
fn validate_env_kv_nul_in_value_rejected() {
    let err = validate_and_extract_env_kv("FOOBAR=baz\0qux").unwrap_err();
    assert_eq!(err.code, "CONFIG_INVALID");
}

#[test]
fn env_kv_messages() {
    let err = validate_and_extract_env_kv("A=b\tc").unwrap_err();
    assert_eq!(
        err.message,
        "'--env value for 'A'': value contains a control character ('\\t'); values must be single-line plain text; got: \"b\\tc\""
    );
    let (k, v) = validate_and_extract_env_kv("A=b=c").unwrap();
    assert_eq!((k.as_str(), v.as_str()), ("A", "b=c"));
    let (k, v) = validate_and_extract_env_kv("=").unwrap();
    assert_eq!((k.as_str(), v.as_str()), ("", ""));
}

#[test]
fn env_options_last_one_wins() {
    let t = collect_env(&vec!["A=1".to_string(), "B=2".to_string(), "A=3".to_string()]).unwrap();
    assert_eq!(t.len(), 2);
    assert_eq!(t.get("A").map(String::as_str), Some("3"));
    assert_eq!(t.get("B").map(String::as_str), Some("2"));
    assert!(collect_env(&vec!["A=1".to_string(), "B".to_string()]).is_err());
}

#[test]
fn guest_invocation_direct_no_login() {
    let (prog, args) = build_guest_invocation(&cmd("htop"), &Table::new(), false);
    assert_eq!(prog, "htop");
    assert!(args.is_empty());
}

#[test]
fn guest_invocation_direct_with_args() {
    let full_cmd = cmd_args("htop", &["--delay", "1"]);
    let (prog, args) = build_guest_invocation(&full_cmd, &Table::new(), false);
    assert_eq!(prog, "htop");
    assert_eq!(args, vec!["--delay".to_string(), "1".to_string()]);
}

#[test]
fn guest_invocation_empty_cmd_defaults_to_sh() {
    let (prog, args) = build_guest_invocation(&[], &Table::new(), false);
    assert_eq!(prog, "/bin/sh");
    assert!(args.is_empty());
}

#[test]
fn guest_invocation_login_no_env() {
    let full_cmd = cmd_args("cargo", &["test"]);
    let (prog, args) = build_guest_invocation(&full_cmd, &Table::new(), true);
    assert_eq!(prog, "/bin/sh");
    assert_eq!(args[0], "-l");
    assert_eq!(args[1], "-c");
    assert!(args[2].contains("exec \"$0\" \"$@\""), "script should use exec: {}", args[2]);
    assert_eq!(args[3], "cargo");
    assert_eq!(args[4], "test");
}

#[test]
fn guest_invocation_env_no_login() {
    let env = env_of(&[("FOO", "bar"), ("BAZ", "qux")]);
    let (prog, args) = build_guest_invocation(&cmd("env"), &env, false);
    assert_eq!(prog, "/bin/sh");
    assert_eq!(args[0], "-c");
    let script = &args[1];
    assert!(script.contains("export FOO='bar'"), "script: {script}");
    assert!(script.contains("export BAZ='qux'"), "script: {script}");
    assert!(script.contains("exec \"$0\" \"$@\""), "script: {script}");
    assert_eq!(args[2], "env");
}

#[test]
fn guest_invocation_env_value_with_single_quote() {
    let env = env_of(&[("MSG", "it's a test")]);
    let (_, args) = build_guest_invocation(&cmd("sh"), &env, false);
    let script = &args[1];
    assert!(
        script.contains(r"'it'\''s a test'"),
        "expected escaped single quote in: {script}"
    );
}

#[test]
fn guest_invocation_env_with_login() {
    let env = env_of(&[("KEY", "val")]);
    let (prog, args) = build_guest_invocation(&cmd("sh"), &env, true);
    assert_eq!(prog, "/bin/sh");
    assert_eq!(args[0], "-l");
    assert_eq!(args[1], "-c");
    let script = &args[2];
    assert!(script.contains("export KEY='val'"));
    assert_eq!(args[3], "sh");
}

#[test]
fn guest_invocation_whole_script() {
    let env = env_of(&[("A", "1"), ("B", "2")]);
    let (_, args) = build_guest_invocation(&[], &env, true);
    assert_eq!(args[2], "export A='1'; export B='2'; exec \"$0\" \"$@\"");
    assert_eq!(args[3], "/bin/sh");
    assert_eq!(args.len(), 4);
}

#[test]
fn quoting_keeps_everything_else() {
    assert_eq!(shell_single_quote(""), "''");
    assert_eq!(shell_single_quote("a b$c`d\\"), "'a b$c`d\\'");
    assert_eq!(shell_single_quote("'"), "''\\'''");
}

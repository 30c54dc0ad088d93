//! Texts, paths, tables, identifiers and output.

use sodagun::context::{Context, OutputFormat};
use sodagun::digest::{short_digest, tag_of};
use sodagun::error::{handle_error, ErrorReport, SodagunError};
use sodagun::ident::{new_short_id, now_iso8601, short_id_of};
use sodagun::path::{is_absolute, join_path, path_directory, path_file_name, path_parent};
use sodagun::project::{find_project_dir, DirProbe};
use sodagun::table::Table;
use sodagun::text::{
    cut_text, decimal_text, read_unsigned, replace_all, second_word_text, signed_decimal_text,
    split_text, text_at_most, trim_end_char_text, trim_end_text, trim_text,
};
use std::path::Path;

// ── Texts ────────────────────────────────────────────────────────────────────

const SAMPLES: [&str; 12] = [
    "", "a", ",", "a,b", ",,", "a,,b,", " a b ", "\t x\u{a0}y \n", "é,ü", "\u{3000}z\u{85}",
    "one  two three", "\u{1680}\u{2028}q\u{205f}",
];

#[test]
fn texts_behave_like_std() {
    for s in SAMPLES {
        assert_eq!(trim_text(s), s.trim(), "{s:?}");
        assert_eq!(trim_end_text(s), s.trim_end(), "{s:?}");
        assert_eq!(trim_end_char_text(s, ','), s.trim_end_matches(','), "{s:?}");
        let pieces: Vec<&str> = s.split(',').collect();
        assert_eq!(split_text(s, ','), pieces, "{s:?}");
        assert_eq!(
            cut_text(s, ',').as_ref().map(|(a, b)| (a.as_str(), b.as_str())),
            s.split_once(','),
            "{s:?}"
        );
        assert_eq!(second_word_text(s).as_deref(), s.split_whitespace().nth(1), "{s:?}");
        assert_eq!(replace_all(s, &[',', ' '], '-'), s.replace([',', ' '], "-"), "{s:?}");
        for t in SAMPLES {
            assert_eq!(text_at_most(s, t), s <= t, "{s:?} {t:?}");
        }
    }
}

#[test]
fn numbers_behave_like_std() {
    for s in ["", "+", "-", "0", "+7", "-7", "007", "65535", "65536", "1_0", " 1", "1 ", "٣"] {
        assert_eq!(read_unsigned(s, 65535).map(|n| n as u16), s.parse::<u16>().ok(), "{s:?}");
    }
    for n in [0u64, 9, 10, 4096, u64::MAX] {
        assert_eq!(decimal_text(n), n.to_string());
    }
    for n in [0i32, -1, 7, i32::MAX, i32::MIN] {
        assert_eq!(signed_decimal_text(n), n.to_string());
    }
}

// ── Paths ────────────────────────────────────────────────────────────────────

const PATHS: [&str; 16] = [
    "", "/", "a", "a/", "/a", "/a/b", "/a/b/", "a/..", "..", ".", "/a/./", "a//b//", "//a", "./a",
    "/..", "a/.",
];

#[test]
fn paths_behave_like_std() {
    for p in PATHS {
        let std_path = Path::new(p);
        assert_eq!(is_absolute(p), std_path.is_absolute(), "{p:?}");
        assert_eq!(
            path_file_name(p).as_deref(),
            std_path.file_name().map(|n| n.to_str().unwrap()),
            "{p:?}"
        );
        assert_eq!(
            path_parent(p).as_deref().map(Path::new),
            std_path.parent(),
            "{p:?}"
        );
        assert_eq!(
            Path::new(&path_directory(p)),
            std_path.parent().unwrap_or(Path::new(".")),
            "{p:?}"
        );
        for q in PATHS {
            assert_eq!(join_path(p, q), std_path.join(q).to_str().unwrap(), "{p:?} {q:?}");
        }
    }
}

// ── Tables ───────────────────────────────────────────────────────────────────

#[test]
fn tables_hold_one_value_for_a_key() {
    let mut t: Table<u8> = Table::new();
    assert!(t.is_empty());
    t.insert("a".to_string(), 1);
    t.insert("b".to_string(), 2);
    t.insert("a".to_string(), 3);
    assert_eq!(t.len(), 2);
    assert_eq!(t.get("a"), Some(&3));
    assert_eq!((t.key_at(0), *t.value_at(0)), ("a", 3));
    assert!(t.contains_key("b") && !t.contains_key("c"));
    let mut more: Table<u8> = Table::default();
    more.insert("b".to_string(), 7);
    more.insert("c".to_string(), 8);
    t.extend(more);
    assert_eq!(t.len(), 3);
    assert_eq!((t.get("a"), t.get("b"), t.get("c")), (Some(&3), Some(&7), Some(&8)));
}

// ── Identifiers, digests and time ────────────────────────────────────────────

#[test]
fn now_iso8601_format() {
    let ts = now_iso8601();
    assert_eq!(ts.len(), 20, "timestamp={ts}");
    assert!(ts.ends_with('Z'), "timestamp={ts}");
    let year: i32 = ts[0..4].parse().unwrap();
    assert!(year >= 2025, "year should be recent: {year}");
    let number = |at: usize| ts[at..at + 2].parse::<u32>().unwrap();
    assert!((1..=12).contains(&number(5)), "timestamp={ts}");
    assert!((1..=31).contains(&number(8)), "timestamp={ts}");
    assert!(number(11) <= 23 && number(14) <= 59 && number(17) <= 60, "timestamp={ts}");
    assert_eq!((&ts[4..5], &ts[7..8], &ts[10..11]), ("-", "-", "T"), "timestamp={ts}");
    assert_eq!((&ts[13..14], &ts[16..17]), (":", ":"), "timestamp={ts}");
}

#[test]
fn short_identifiers() {
    assert_eq!(short_id_of("0123abcd-0000-4000-8000-000000000000"), "0123abcd");
    let id = new_short_id();
    assert_eq!(id.len(), 8);
    assert!(id.chars().all(|c| c.is_ascii_hexdigit() && !c.is_ascii_uppercase()));
}

#[test]
fn digests() {
    assert_eq!(tag_of(b"abc"), "ungWv48Bz-pB");
    assert_eq!(tag_of(b"#!/bin/sh\n"), "qAdtPSjSHgIB");
    assert!(tag_of(b"any").chars().all(|c| c.is_ascii_alphanumeric() || c == '-' || c == '_'));
    assert_eq!(short_digest(&[0u8; 32]), "AAAAAAAAAAAA");
    assert_eq!(short_digest(&[0xffu8; 32]), "____________");
}

// ── Output ───────────────────────────────────────────────────────────────────

#[test]
fn quiet_contexts_log_nothing() {
    let loud = Context { output: OutputFormat::default(), quiet: false };
    let quiet = Context { output: OutputFormat::Json, quiet: true };
    assert_eq!(loud.log("m").as_deref(), Some("m"));
    assert_eq!(quiet.log("m"), None);
    assert_eq!(loud.output, OutputFormat::Text);
}

#[test]
fn errors_are_reported_in_the_chosen_format() {
    let err = SodagunError { code: "X", message: "why".to_string() };
    let text = Context { output: OutputFormat::Text, quiet: true };
    let json = Context { output: OutputFormat::Json, quiet: true };
    assert!(matches!(handle_error(json, &err), ErrorReport::Json { code } if code == "X"));
    assert!(matches!(handle_error(text, &err), ErrorReport::Text { detail } if detail == " [X]: why"));
}

// ── Projects ─────────────────────────────────────────────────────────────────

fn probe(dir: &str, has_toml: bool, has_git: bool) -> DirProbe {
    DirProbe { dir: dir.to_string(), has_toml, has_git }
}

#[test]
fn project_directories() {
    let found = find_project_dir(Some("/given"), &vec![], false).unwrap();
    assert_eq!((found.dir.as_str(), found.warning), ("/given", None));
    let probes = vec![
        probe("/p/a/b", false, false),
        probe("/p/a", true, false),
        probe("/p", false, true),
        probe("/", false, false),
    ];
    let found = find_project_dir(None, &probes, false).unwrap();
    assert_eq!(found.dir, "/p/a");
    assert_eq!(
        found.warning.as_deref(),
        Some("sodagun.toml should be at the project root (/p), not /p/a")
    );
    assert!(find_project_dir(None, &probes, true).unwrap().warning.is_none());
    let found = find_project_dir(None, &vec![probe("/p", true, true)], false).unwrap();
    assert_eq!((found.dir.as_str(), found.warning), ("/p", None));
    let found = find_project_dir(None, &vec![probe("/p", false, true)], false).unwrap();
    assert!(found.warning.is_none());
    assert_eq!(
        find_project_dir(None, &vec![probe("/p", false, false)], false).unwrap_err(),
        "no sodagun.toml or .git directory found; use --project-dir to specify the project root"
    );
}

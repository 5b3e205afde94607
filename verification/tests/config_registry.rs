use gittuit::commit_config::{
    apply_override, load_effective_commit_policy, normalize_list, normalize_non_empty_list,
    read_override_text, repo_config_path, unknown_field_names, validate_policy, CommitPolicy, CommitPolicyOverride, OverrideRead,
    RepoConfigRead,
};
use gittuit::repo_registry::{
    canonical_repo_path, ensure_git_root, normalize_repo_path_input, RepoRegistry,
};

fn strings(v: &[&str]) -> Vec<String> {
    v.iter().map(|s| s.to_string()).collect()
}

fn no_override() -> CommitPolicyOverride {
    CommitPolicyOverride { schema_version: None, all_types: None, releasable_types: None, guarded_prefixes: None }
}

#[test]
fn default_policy_lists_conventional_types() {
    let p = CommitPolicy::default();
    assert_eq!(p.all_types.len(), 10);
    assert_eq!(p.all_types[0], "feat");
    assert_eq!(p.releasable_types, strings(&["feat", "fix"]));
    assert_eq!(p.guarded_prefixes, strings(&["src/"]));
    assert_eq!(validate_policy(&p), Ok(()));
}

#[test]
fn normalizing_trims_drops_empty_and_duplicates() {
    let once = normalize_list(&strings(&[" feat ", "", "fix", "feat", "  "]));
    assert_eq!(once, strings(&["feat", "fix"]));
    assert_eq!(normalize_list(&once), once);
    assert_eq!(normalize_non_empty_list("all_types", &strings(&[" "])), Err("all_types cannot be empty".to_string()));
    assert_eq!(normalize_non_empty_list("x", &strings(&["a"])), Ok(strings(&["a"])));
}

#[test]
fn validation_errors() {
    let empty = CommitPolicy { all_types: vec![], releasable_types: vec![], guarded_prefixes: vec![] };
    assert_eq!(validate_policy(&empty), Err("all_types must contain at least one value".to_string()));
    let unknown = CommitPolicy {
        all_types: strings(&["feat"]),
        releasable_types: strings(&["feat", "fix", "perf"]),
        guarded_prefixes: vec![],
    };
    assert_eq!(validate_policy(&unknown), Err("releasable type 'fix' is missing from all_types".to_string()));
}

#[test]
fn overrides_replace_the_fields_they_set() {
    let base = CommitPolicy::default();
    let mut o = no_override();
    o.all_types = Some(strings(&["feat", " chore "]));
    o.releasable_types = Some(strings(&["feat"]));
    let p = apply_override(&base, &o).unwrap();
    assert_eq!(p.all_types, strings(&["feat", "chore"]));
    assert_eq!(p.releasable_types, strings(&["feat"]));
    assert_eq!(p.guarded_prefixes, strings(&["src/"]));
}

#[test]
fn override_errors() {
    let base = CommitPolicy::default();
    let mut v = no_override();
    v.schema_version = Some(2);
    assert_eq!(apply_override(&base, &v).unwrap_err(), "schema_version 2 is not supported (expected 1)");
    let mut e = no_override();
    e.all_types = Some(strings(&["  "]));
    assert_eq!(apply_override(&base, &e).unwrap_err(), "all_types cannot be empty");
    let mut r = no_override();
    r.all_types = Some(strings(&["docs"]));
    assert_eq!(apply_override(&base, &r).unwrap_err(), "releasable type 'feat' is missing from all_types");
}

#[test]
fn unknown_fields_are_named() {
    let keys = strings(&["schema_version", "colour", "all_types", "extra"]);
    assert_eq!(unknown_field_names(&keys), strings(&["colour", "extra"]));
}

#[test]
fn effective_policy_without_repo_file_is_default() {
    let r = load_effective_commit_policy(None);
    assert!(r.warnings.is_empty());
    assert_eq!(r.policy.releasable_types, strings(&["feat", "fix"]));
    let missing = load_effective_commit_policy(Some(RepoConfigRead { path: "/r/.gittuit.json".to_string(), read: OverrideRead::Missing }));
    assert!(missing.warnings.is_empty());
}

#[test]
fn effective_policy_warns_and_falls_back() {
    let bad = load_effective_commit_policy(Some(RepoConfigRead {
        path: "/r/c.json".to_string(),
        read: OverrideRead::InvalidJson("expected value".to_string()),
    }));
    assert_eq!(bad.warnings, strings(&["Repo config at /r/c.json is not valid JSON: expected value"]));
    assert_eq!(bad.policy.all_types.len(), 10);

    let mut o = no_override();
    o.schema_version = Some(7);
    let refused = load_effective_commit_policy(Some(RepoConfigRead {
        path: "/r/c.json".to_string(),
        read: OverrideRead::Parsed { keys: strings(&["schema_version", "theme"]), fields: Ok(o) },
    }));
    assert_eq!(
        refused.warnings,
        strings(&[
            "Repo config at /r/c.json contains unsupported field 'theme' (ignored).",
            "Repo config at /r/c.json was ignored: schema_version 7 is not supported (expected 1)",
        ])
    );
    assert_eq!(refused.policy.releasable_types, strings(&["feat", "fix"]));
    assert_eq!(validate_policy(&refused.policy), Ok(()));
}

#[test]
fn effective_policy_applies_a_good_override() {
    let mut o = no_override();
    o.guarded_prefixes = Some(strings(&["lib/", "src/"]));
    let r = load_effective_commit_policy(Some(RepoConfigRead {
        path: "/r/c.json".to_string(),
        read: OverrideRead::Parsed { keys: strings(&["guarded_prefixes"]), fields: Ok(o) },
    }));
    assert!(r.warnings.is_empty());
    assert_eq!(r.policy.guarded_prefixes, strings(&["lib/", "src/"]));
    assert_eq!(validate_policy(&r.policy), Ok(()));
}

#[test]
fn registry_adds_sorted_and_once() {
    let mut reg = RepoRegistry::new();
    assert!(reg.add_repo("/home/u/zeta"));
    assert!(reg.add_repo("/home/u/alpha"));
    assert!(!reg.add_repo("/home/u/zeta"));
    let paths: Vec<&str> = reg.repos.iter().map(|r| r.path.as_str()).collect();
    assert_eq!(paths, vec!["/home/u/alpha", "/home/u/zeta"]);
    let removed = reg.remove_index(0).unwrap();
    assert_eq!(removed.path, "/home/u/alpha");
    assert!(reg.remove_index(5).is_none());
    assert_eq!(reg.repos.len(), 1);
}

#[test]
fn typed_paths_are_trimmed_and_unquoted() {
    assert_eq!(normalize_repo_path_input("  \"/tmp/my repo\" "), "/tmp/my repo");
    assert_eq!(normalize_repo_path_input("'x"), "'x");
    assert_eq!(canonical_repo_path(" '' "), Err("Path cannot be empty".to_string()));
    assert_eq!(canonical_repo_path("/a"), Ok("/a".to_string()));
}

#[test]
fn git_root_checks() {
    assert_eq!(ensure_git_root(false, false, false, "/f"), Err("Path is not a directory: /f".to_string()));
    assert_eq!(ensure_git_root(true, false, true, "/w"), Ok(()));
    assert_eq!(
        ensure_git_root(true, false, false, "/d"),
        Err("Directory is not a git root (.git missing at root): /d".to_string())
    );
}

fn read_text(text: &str) -> RepoConfigRead {
    read_override_text("/r/.gittuit/commit_config.json", Some(Ok(text.to_string())))
}

fn field_error(text: &str) -> String {
    match read_text(text).read {
        OverrideRead::Parsed { fields: Err(e), .. } => e,
        other => panic!("expected a field error, got {:?}", other),
    }
}

#[test]
fn override_path_is_under_the_repository() {
    assert_eq!(repo_config_path("/r", false), "/r/.gittuit/commit_config.json");
    assert_eq!(repo_config_path("C:\\r", true), "C:\\r\\.gittuit\\commit_config.json");
}

#[test]
fn a_missing_or_unreadable_override_file() {
    let missing = read_override_text("/r/x.json", None);
    assert_eq!(missing.path, "/r/x.json");
    assert!(matches!(missing.read, OverrideRead::Missing));
    let denied = load_effective_commit_policy(Some(read_override_text("/r/x.json", Some(Err("denied".to_string())))));
    assert_eq!(denied.warnings, strings(&["Repo config at /r/x.json could not be read: denied"]));
    assert_eq!(denied.policy.all_types, CommitPolicy::default().all_types);
}

#[test]
fn override_text_that_is_not_json() {
    let r = load_effective_commit_policy(Some(read_text("{")));
    assert_eq!(r.warnings.len(), 1);
    assert!(r.warnings[0].starts_with("Repo config at /r/.gittuit/commit_config.json is not valid JSON: EOF while parsing"));
}

#[test]
fn override_text_with_fields() {
    let read = read_text(r#"{"releasable_types":["fix"],"all_types":["feat"," fix ","feat"],"extra":1}"#);
    match &read.read {
        OverrideRead::Parsed { keys, fields: Ok(o) } => {
            assert_eq!(keys, &strings(&["all_types", "extra", "releasable_types"]));
            assert_eq!(o.schema_version, None);
            assert_eq!(o.all_types, Some(strings(&["feat", " fix ", "feat"])));
            assert_eq!(o.releasable_types, Some(strings(&["fix"])));
            assert_eq!(o.guarded_prefixes, None);
        },
        other => panic!("unexpected {:?}", other),
    }
    let r = load_effective_commit_policy(Some(read));
    assert_eq!(r.policy.all_types, strings(&["feat", "fix"]));
    assert_eq!(r.policy.releasable_types, strings(&["fix"]));
    assert_eq!(r.policy.guarded_prefixes, strings(&["src/"]));
    assert_eq!(
        r.warnings,
        strings(&["Repo config at /r/.gittuit/commit_config.json contains unsupported field 'extra' (ignored)."])
    );
}

#[test]
fn override_fields_of_the_wrong_kind() {
    assert_eq!(field_error(r#"{"all_types": 5}"#), "invalid type: integer `5`, expected a sequence");
    assert_eq!(field_error(r#"{"all_types": ["a", 3]}"#), "invalid type: integer `3`, expected a string");
    assert_eq!(field_error(r#"{"guarded_prefixes": {"a": 1}}"#), "invalid type: map, expected a sequence");
    assert_eq!(field_error(r#"{"schema_version": -1}"#), "invalid value: integer `-1`, expected u32");
    assert_eq!(field_error(r#"{"schema_version": 5000000000}"#), "invalid value: integer `5000000000`, expected u32");
    assert_eq!(field_error(r#"{"schema_version": 1.5}"#), "invalid type: floating point `1.5`, expected u32");
    assert_eq!(field_error(r#"{"schema_version": "1"}"#), "invalid type: string \"1\", expected u32");
    assert_eq!(field_error(r#"{"schema_version": true}"#), "invalid type: boolean `true`, expected u32");
    assert_eq!(field_error(r#""text""#), "invalid type: string \"text\", expected struct CommitPolicyOverride");
    assert_eq!(field_error("null"), "invalid type: null, expected struct CommitPolicyOverride");
    assert_eq!(field_error("[1, null, null]"), "invalid length 3, expected struct CommitPolicyOverride with 4 elements");
    assert_eq!(field_error("[null, null, null, null, null]"), "invalid length 5, expected fewer elements in array");
}

#[test]
fn override_fields_by_position_and_unsupported_versions() {
    match read_text(r#"[1, ["feat"], null, []]"#).read {
        OverrideRead::Parsed { keys, fields: Ok(o) } => {
            assert!(keys.is_empty());
            assert_eq!(o.schema_version, Some(1));
            assert_eq!(o.all_types, Some(strings(&["feat"])));
            assert_eq!(o.releasable_types, None);
            assert_eq!(o.guarded_prefixes, Some(Vec::new()));
        },
        other => panic!("unexpected {:?}", other),
    }
    let r = load_effective_commit_policy(Some(read_text(r#"{"schema_version": 2, "all_types": ["x"]}"#)));
    assert_eq!(
        r.warnings,
        strings(&["Repo config at /r/.gittuit/commit_config.json was ignored: schema_version 2 is not supported (expected 1)"])
    );
    let bad = load_effective_commit_policy(Some(read_text(r#"{"all_types": 5}"#)));
    assert_eq!(
        bad.warnings,
        strings(&["Repo config at /r/.gittuit/commit_config.json has invalid fields: invalid type: integer `5`, expected a sequence"])
    );
}

use gittuit::diagnostics::{
    command_version, default_log_file_path, doctor_report, level_name_exec, parse_runtime_options,
    resolve_log_file_path, LogLevel, RuntimeOptions,
};
use gittuit::runtime_paths::{cache_dir, config_dir, data_dir, logs_dir, path_join_exec, path_join_on_exec};

fn s(v: &str) -> Option<String> {
    Some(v.to_string())
}

fn args(v: &[&str]) -> Vec<String> {
    v.iter().map(|a| a.to_string()).collect()
}

#[test]
fn path_join_follows_unix_rules() {
    assert_eq!(path_join_exec("/a", "b"), "/a/b");
    assert_eq!(path_join_exec("/a/", "b"), "/a/b");
    assert_eq!(path_join_exec("/a", "/abs"), "/abs");
    assert_eq!(path_join_exec("", "b"), "b");
}

#[test]
fn config_dir_precedence() {
    assert_eq!(config_dir(&s(" /cfg "), &s("/home/.config"), false), Ok("/cfg".to_string()));
    assert_eq!(config_dir(&None, &s("/home/.config"), false), Ok("/home/.config/gitTUIt".to_string()));
    assert_eq!(config_dir(&None, &s("/home/.config"), true), Ok("/home/.config/gitTUIt-dev".to_string()));
}

#[test]
fn config_dir_errors() {
    assert_eq!(
        config_dir(&s(""), &s("/home/.config"), false),
        Err("GITTUIT_CONFIG_DIR is set but empty. Provide a valid directory path.".to_string())
    );
    assert_eq!(config_dir(&None, &None, false), Err("Could not determine config directory".to_string()));
}

#[test]
fn data_and_cache_dirs() {
    assert_eq!(data_dir(&s("/home/.local/share"), false), Ok("/home/.local/share/gitTUIt".to_string()));
    assert_eq!(cache_dir(&s("/home/.cache"), true), Ok("/home/.cache/gitTUIt-dev".to_string()));
    assert_eq!(data_dir(&None, false), Err("Could not determine data directory".to_string()));
    assert_eq!(cache_dir(&None, false), Err("Could not determine cache directory".to_string()));
    assert_eq!(logs_dir("/cfg"), "/cfg/logs");
}

#[test]
fn options_default_and_flags() {
    let o = parse_runtime_options(&args(&[])).unwrap();
    assert!(!o.logging_enabled && !o.doctor_mode);
    assert_eq!(o.log_file_path, None);
    assert_eq!(o.log_level, LogLevel::Info);
    let o = parse_runtime_options(&args(&["--log-level", "WARNING", "--log-file", "/t/x.log", "-l"])).unwrap();
    assert!(o.logging_enabled && o.doctor_mode);
    assert_eq!(o.log_file_path, s("/t/x.log"));
    assert_eq!(o.log_level, LogLevel::Warn);
}

#[test]
fn option_errors() {
    assert_eq!(parse_runtime_options(&args(&["--log-file"])).unwrap_err(), "--log-file requires a path argument");
    assert_eq!(
        parse_runtime_options(&args(&["--log-level"])).unwrap_err(),
        "--log-level requires one of: error, warn, info, debug, trace"
    );
    assert_eq!(
        parse_runtime_options(&args(&["--log-level", "loud"])).unwrap_err(),
        "Invalid log level 'loud'. Use one of: error, warn, info, debug, trace"
    );
    assert_eq!(
        parse_runtime_options(&args(&["--verbose"])).unwrap_err(),
        "Unknown argument: --verbose. Supported flags: --log, --log-file <path>, --log-level <level>, -l"
    );
}

#[test]
fn log_file_paths() {
    let o = RuntimeOptions { logging_enabled: true, doctor_mode: false, log_file_path: None, log_level: LogLevel::Debug };
    assert_eq!(resolve_log_file_path(&o, "/cfg/logs"), "/cfg/logs/gitTUIt.log");
    assert_eq!(default_log_file_path("/cfg/logs"), "/cfg/logs/gitTUIt.log");
    let o2 = RuntimeOptions { log_file_path: s("/x.log"), ..o };
    assert_eq!(resolve_log_file_path(&o2, "/cfg/logs"), "/x.log");
    assert_eq!(level_name_exec(LogLevel::Trace), "TRACE");
}

#[test]
fn doctor_report_text_and_errors() {
    let o = RuntimeOptions { logging_enabled: false, doctor_mode: true, log_file_path: None, log_level: LogLevel::Info };
    let r = doctor_report(&o, &Ok("/c".to_string()), &Ok("/d".to_string()), &Ok("/k".to_string()), "git version 2.43.0", "not found")
        .unwrap();
    assert_eq!(
        r,
        "gitTUIt diagnostics\n==================\nLogging enabled: false\nLog level: INFO\nLog file path: /c/logs/gitTUIt.log\nLogs dir: /c/logs\nConfig dir: /c\nData dir: /d\nCache dir: /k\nRepo registry path: /c/repos.json\ngit version: git version 2.43.0\ngh version: not found\n"
    );
    let e = doctor_report(&o, &Ok("/c".to_string()), &Err("no data".to_string()), &Err("no cache".to_string()), "", "");
    assert_eq!(e, Err("no data".to_string()));
}

#[test]
fn version_lines() {
    assert_eq!(command_version(false, false, "", ""), "not found");
    assert_eq!(command_version(true, false, "exit status: 2", ""), "failed (status: exit status: 2)");
    assert_eq!(command_version(true, true, "0", "  \n"), "available (no output)");
    assert_eq!(command_version(true, true, "0", "gh version 2.40.0\nhttps://x\n"), "gh version 2.40.0");
}

#[test]
fn joining_follows_the_platform() {
    assert_eq!(path_join_on_exec("/home", "me", false), "/home/me");
    assert_eq!(path_join_on_exec("C:\\Users", "me", true), "C:\\Users\\me");
    assert_eq!(path_join_on_exec("C:\\Users\\", "me", true), "C:\\Users\\me");
    assert_eq!(path_join_on_exec("C:", "x", true), "C:x");
    assert_eq!(path_join_on_exec("C:\\a", "\\b", true), "C:\\b");
    assert_eq!(path_join_on_exec("C:\\a", "D:\\b", true), "D:\\b");
}

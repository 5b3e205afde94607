//! Command-line options, the log file's place and the `-l` report.
use vstd::prelude::*;

use crate::runtime_paths::{path_join, path_join_exec};
use crate::text::{cat3, lemma_lines_nonempty, opt_string_view, lines, lines_of, lower, lowercase, owned, str_eq, trim, trimmed, views};

verus! {

/// The most verbose kind of message that the log keeps.
#[derive(Debug, Clone, Copy, PartialEq, Eq, Structural)]
pub enum LogLevel {
    Error,
    Warn,
    Info,
    Debug,
    Trace,
}

/// What the command line asked for.
#[derive(Debug, Clone)]
pub struct RuntimeOptions {
    pub logging_enabled: bool,
    pub doctor_mode: bool,
    pub log_file_path: Option<String>,
    pub log_level: LogLevel,
}

/// The options as plain values: logging on, report mode, log file, level.
pub type OptionsModel = (bool, bool, Option<Seq<char>>, LogLevel);

impl RuntimeOptions {
    pub open spec fn model(&self) -> OptionsModel {
        (self.logging_enabled, self.doctor_mode, opt_string_view(self.log_file_path), self.log_level)
    }
}

pub open spec fn default_options() -> OptionsModel {
    (false, false, None, LogLevel::Info)
}

pub open spec fn log_file_missing_message() -> Seq<char> {
    "--log-file requires a path argument"@
}

pub open spec fn log_level_missing_message() -> Seq<char> {
    "--log-level requires one of: error, warn, info, debug, trace"@
}

pub open spec fn invalid_level_message(raw: Seq<char>) -> Seq<char> {
    "Invalid log level '"@ + raw + "'. Use one of: error, warn, info, debug, trace"@
}

pub open spec fn unknown_argument_message(arg: Seq<char>) -> Seq<char> {
    "Unknown argument: "@ + arg + ". Supported flags: --log, --log-file <path>, --log-level <level>, -l"@
}

/// The level that `raw` names, in any letter case.
pub open spec fn level_of(raw: Seq<char>) -> Result<LogLevel, Seq<char>> {
    let l = lower(raw);
    if l == "error"@ {
        Ok(LogLevel::Error)
    } else if l == "warn"@ || l == "warning"@ {
        Ok(LogLevel::Warn)
    } else if l == "info"@ {
        Ok(LogLevel::Info)
    } else if l == "debug"@ {
        Ok(LogLevel::Debug)
    } else if l == "trace"@ {
        Ok(LogLevel::Trace)
    } else {
        Err(invalid_level_message(raw))
    }
}

/// Reading `args` from left to right, starting from the options `st`.
pub open spec fn options_from(args: Seq<Seq<char>>, st: OptionsModel) -> Result<OptionsModel, Seq<char>>
    decreases args.len(),
{
    if args.len() == 0 {
        Ok(st)
    } else {
        let a = args[0];
        let rest = args.drop_first();
        if a == "--log"@ {
            options_from(rest, (true, st.1, st.2, st.3))
        } else if a == "-l"@ {
            options_from(rest, (st.0, true, st.2, st.3))
        } else if a == "--log-file"@ {
            if rest.len() == 0 {
                Err(log_file_missing_message())
            } else {
                options_from(rest.drop_first(), (true, st.1, Some(rest[0]), st.3))
            }
        } else if a == "--log-level"@ {
            if rest.len() == 0 {
                Err(log_level_missing_message())
            } else {
                match level_of(rest[0]) {
                    Ok(l) => options_from(rest.drop_first(), (true, st.1, st.2, l)),
                    Err(e) => Err(e),
                }
            }
        } else {
            Err(unknown_argument_message(a))
        }
    }
}

/// The name of a level as the log prints it.
pub open spec fn level_name(l: LogLevel) -> Seq<char> {
    match l {
        LogLevel::Error => "ERROR"@,
        LogLevel::Warn => "WARN"@,
        LogLevel::Info => "INFO"@,
        LogLevel::Debug => "DEBUG"@,
        LogLevel::Trace => "TRACE"@,
    }
}

pub open spec fn bool_text(b: bool) -> Seq<char> {
    if b {
        "true"@
    } else {
        "false"@
    }
}

/// The log file: the one the command line named, else `gitTUIt.log` in the log directory.
pub open spec fn log_file_of(given: Option<Seq<char>>, logs_dir: Seq<char>) -> Seq<char> {
    match given {
        Some(p) => p,
        None => path_join(logs_dir, "gitTUIt.log"@),
    }
}

/// The report that `-l` prints.
pub open spec fn report_text(
    o: OptionsModel,
    log_file: Seq<char>,
    logs_dir: Seq<char>,
    config_dir: Seq<char>,
    data_dir: Seq<char>,
    cache_dir: Seq<char>,
    repos_file: Seq<char>,
    git_version: Seq<char>,
    gh_version: Seq<char>,
) -> Seq<char> {
    "gitTUIt diagnostics\n==================\nLogging enabled: "@ + bool_text(o.0)
        + "\nLog level: "@ + level_name(o.3)
        + "\nLog file path: "@ + log_file
        + "\nLogs dir: "@ + logs_dir
        + "\nConfig dir: "@ + config_dir
        + "\nData dir: "@ + data_dir
        + "\nCache dir: "@ + cache_dir
        + "\nRepo registry path: "@ + repos_file
        + "\ngit version: "@ + git_version
        + "\ngh version: "@ + gh_version + "\n"@
}

/// What `<program> --version` printed, summed up in one line: `ran` says
/// whether the program could be started at all.
pub open spec fn version_summary(ran: bool, success: bool, status: Seq<char>, stdout: Seq<char>) -> Seq<char> {
    if !ran {
        "not found"@
    } else if !success {
        "failed (status: "@ + status + ")"@
    } else if trim(stdout).len() == 0 {
        "available (no output)"@
    } else {
        lines(trim(stdout))[0]
    }
}

proof fn lemma_options_step(args: Seq<Seq<char>>, i: int)
    requires
        0 <= i < args.len(),
    ensures
        args.skip(i)[0] == args[i],
        args.skip(i).drop_first() == args.skip(i + 1),
{
    assert(args.skip(i).drop_first() =~= args.skip(i + 1));
}

fn level_from(raw: &str) -> (res: Result<LogLevel, String>)
    ensures
        match res {
            Ok(l) => level_of(raw@) == Ok::<_, Seq<char>>(l),
            Err(e) => level_of(raw@) == Err::<LogLevel, _>(e@),
        },
{
    let l = lowercase(raw);
    let ls = l.as_str();
    if str_eq(ls, "error") {
        Ok(LogLevel::Error)
    } else if str_eq(ls, "warn") || str_eq(ls, "warning") {
        Ok(LogLevel::Warn)
    } else if str_eq(ls, "info") {
        Ok(LogLevel::Info)
    } else if str_eq(ls, "debug") {
        Ok(LogLevel::Debug)
    } else if str_eq(ls, "trace") {
        Ok(LogLevel::Trace)
    } else {
        Err(cat3("Invalid log level '", raw, "'. Use one of: error, warn, info, debug, trace"))
    }
}

/// Reads the command-line arguments (without the program's name).
pub fn parse_runtime_options(args: &Vec<String>) -> (res: Result<RuntimeOptions, String>)
    ensures
        match res {
            Ok(o) => options_from(views(args@), default_options()) == Ok::<_, Seq<char>>(o.model()),
            Err(e) => options_from(views(args@), default_options()) == Err::<OptionsModel, _>(e@),
        },
{
    let ghost all = views(args@);
    let mut logging_enabled = false;
    let mut doctor_mode = false;
    let mut log_file_path: Option<String> = None;
    let mut log_level = LogLevel::Info;
    let mut i: usize = 0;
    assert(all.skip(0) == all);
    while i < args.len()
        invariant
            i <= args.len(),
            all == views(args@),
            options_from(all, default_options()) == options_from(
                all.skip(i as int),
                (logging_enabled, doctor_mode, opt_string_view(log_file_path), log_level),
            ),
        decreases args.len() - i,
    {
        proof {
            lemma_options_step(all, i as int);
        }
        let a = args[i].as_str();
        assert(a@ == all[i as int]);
        if str_eq(a, "--log") {
            logging_enabled = true;
            i = i + 1;
        } else if str_eq(a, "-l") {
            doctor_mode = true;
            i = i + 1;
        } else if str_eq(a, "--log-file") {
            if i + 1 >= args.len() {
                return Err(owned("--log-file requires a path argument"));
            }
            proof {
                lemma_options_step(all, i + 1);
            }
            logging_enabled = true;
            log_file_path = Some(args[i + 1].clone());
            i = i + 2;
        } else if str_eq(a, "--log-level") {
            if i + 1 >= args.len() {
                return Err(owned("--log-level requires one of: error, warn, info, debug, trace"));
            }
            proof {
                lemma_options_step(all, i + 1);
            }
            match level_from(args[i + 1].as_str()) {
                Ok(l) => {
                    logging_enabled = true;
                    log_level = l;
                },
                Err(e) => return Err(e),
            }
            i = i + 2;
        } else {
            return Err(cat3(
                "Unknown argument: ",
                a,
                ". Supported flags: --log, --log-file <path>, --log-level <level>, -l",
            ));
        }
    }
    assert(all.skip(i as int).len() == 0);
    Ok(RuntimeOptions { logging_enabled, doctor_mode, log_file_path, log_level })
}

/// The log file given the log directory: the path the command line named, else `gitTUIt.log` there.
pub fn resolve_log_file_path(options: &RuntimeOptions, logs_dir: &str) -> (res: String)
    ensures
        res@ == log_file_of(opt_string_view(options.log_file_path), logs_dir@),
{
    match &options.log_file_path {
        Some(p) => p.clone(),
        None => default_log_file_path(logs_dir),
    }
}

/// `gitTUIt.log` in the log directory.
pub fn default_log_file_path(logs_dir: &str) -> (res: String)
    ensures
        res@ == path_join(logs_dir@, "gitTUIt.log"@),
{
    path_join_exec(logs_dir, "gitTUIt.log")
}

/// The name under which the log prints a level.
pub fn level_name_exec(l: LogLevel) -> (res: &'static str)
    ensures
        res@ == level_name(l),
{
    match l {
        LogLevel::Error => "ERROR",
        LogLevel::Warn => "WARN",
        LogLevel::Info => "INFO",
        LogLevel::Debug => "DEBUG",
        LogLevel::Trace => "TRACE",
    }
}

fn bool_text_exec(b: bool) -> (res: &'static str)
    ensures
        res@ == bool_text(b),
{
    if b {
        "true"
    } else {
        "false"
    }
}

fn push_field(report: String, label: &str, value: &str) -> (res: String)
    ensures
        res@ == report@ + label@ + value@,
{
    let r = report.concat(label);
    r.concat(value)
}

/// The `-l` report from the directories the caller looked up (each an
/// error where the lookup failed) and the version lines of `git` and `gh`.
/// The first failed lookup, in the order configuration, data, cache, is
/// what is returned then.
pub fn doctor_report(
    options: &RuntimeOptions,
    config_dir: &Result<String, String>,
    data_dir: &Result<String, String>,
    cache_dir: &Result<String, String>,
    git_version: &str,
    gh_version: &str,
) -> (res: Result<String, String>)
    ensures
        match (config_dir, data_dir, cache_dir) {
            (Err(e), _, _) => res is Err && res->Err_0@ == e@,
            (Ok(_), Err(e), _) => res is Err && res->Err_0@ == e@,
            (Ok(_), Ok(_), Err(e)) => res is Err && res->Err_0@ == e@,
            (Ok(c), Ok(d), Ok(k)) => res is Ok && res->Ok_0@ == report_text(
                options.model(),
                log_file_of(opt_string_view(options.log_file_path), path_join(c@, "logs"@)),
                path_join(c@, "logs"@),
                c@,
                d@,
                k@,
                path_join(c@, "repos.json"@),
                git_version@,
                gh_version@,
            ),
        },
{
    let c = match config_dir {
        Ok(c) => c.as_str(),
        Err(e) => return Err(owned(e.as_str())),
    };
    let d = match data_dir {
        Ok(d) => d.as_str(),
        Err(e) => return Err(owned(e.as_str())),
    };
    let k = match cache_dir {
        Ok(k) => k.as_str(),
        Err(e) => return Err(owned(e.as_str())),
    };
    let logs = path_join_exec(c, "logs");
    let repos = path_join_exec(c, "repos.json");
    let log_file = resolve_log_file_path(options, logs.as_str());
    let r = owned("gitTUIt diagnostics\n==================\nLogging enabled: ");
    let r = r.concat(bool_text_exec(options.logging_enabled));
    let r = push_field(r, "\nLog level: ", level_name_exec(options.log_level));
    let r = push_field(r, "\nLog file path: ", log_file.as_str());
    let r = push_field(r, "\nLogs dir: ", logs.as_str());
    let r = push_field(r, "\nConfig dir: ", c);
    let r = push_field(r, "\nData dir: ", d);
    let r = push_field(r, "\nCache dir: ", k);
    let r = push_field(r, "\nRepo registry path: ", repos.as_str());
    let r = push_field(r, "\ngit version: ", git_version);
    let r = push_field(r, "\ngh version: ", gh_version);
    let r = r.concat("\n");
    Ok(r)
}

/// Sums up what `<program> --version` gave: `ran` is false where the
/// program could not be started; `status` is how its exit status prints.
pub fn command_version(ran: bool, success: bool, status: &str, stdout: &str) -> (res: String)
    ensures
        res@ == version_summary(ran, success, status@, stdout@),
{
    if !ran {
        return owned("not found");
    }
    if !success {
        return cat3("failed (status: ", status, ")");
    }
    let t = trimmed(stdout);
    if t.as_str().unicode_len() == 0 {
        return owned("available (no output)");
    }
    let ls = lines_of(t.as_str());
    proof {
        lemma_lines_nonempty(t@);
    }
    assert(ls@[0]@ == lines(t@)[0]);
    ls[0].clone()
}

/// Logging that is on stays on: reading more arguments never turns it off.
proof fn lemma_logging_stays_on(args: Seq<Seq<char>>, st: OptionsModel)
    requires
        st.0,
    ensures
        options_from(args, st) matches Ok(o) ==> o.0,
    decreases args.len(),
{
    if args.len() > 0 {
        let rest = args.drop_first();
        if rest.len() > 0 {
            lemma_logging_stays_on(rest.drop_first(), (true, st.1, Some(rest[0]), st.3));
            match level_of(rest[0]) {
                Ok(l) => lemma_logging_stays_on(rest.drop_first(), (true, st.1, st.2, l)),
                Err(_) => {},
            }
        }
        lemma_logging_stays_on(rest, (true, st.1, st.2, st.3));
        lemma_logging_stays_on(rest, (st.0, true, st.2, st.3));
    }
}

/// Any argument list that holds `--log` and is accepted turns logging on,
/// from whatever options reading starts with.
pub proof fn law_log_flag_turns_logging_on(args: Seq<Seq<char>>, st: OptionsModel)
    requires
        args.contains("--log"@),
    ensures
        options_from(args, st) matches Ok(o) ==> o.0,
    decreases args.len(),
{
    let a = args[0];
    let rest = args.drop_first();
    if a == "--log"@ {
        lemma_logging_stays_on(rest, (true, st.1, st.2, st.3));
    } else {
        let k = choose|k: int| 0 <= k < args.len() && args[k] == "--log"@;
        assert(k > 0);
        assert(rest[k - 1] == "--log"@);
        if rest.len() > 0 {
            lemma_logging_stays_on(rest.drop_first(), (true, st.1, Some(rest[0]), st.3));
            match level_of(rest[0]) {
                Ok(l) => lemma_logging_stays_on(rest.drop_first(), (true, st.1, st.2, l)),
                Err(_) => {},
            }
        }
        law_log_flag_turns_logging_on(rest, (st.0, true, st.2, st.3));
    }
}

/// The doctor report that is asked for stays asked for.
proof fn lemma_doctor_stays_on(args: Seq<Seq<char>>, st: OptionsModel)
    requires
        st.1,
    ensures
        options_from(args, st) matches Ok(o) ==> o.1,
    decreases args.len(),
{
    if args.len() > 0 {
        let rest = args.drop_first();
        if rest.len() > 0 {
            lemma_doctor_stays_on(rest.drop_first(), (true, st.1, Some(rest[0]), st.3));
            match level_of(rest[0]) {
                Ok(l) => lemma_doctor_stays_on(rest.drop_first(), (true, st.1, st.2, l)),
                Err(_) => {},
            }
        }
        lemma_doctor_stays_on(rest, (true, st.1, st.2, st.3));
        lemma_doctor_stays_on(rest, (st.0, true, st.2, st.3));
    }
}

/// Any accepted argument list that starts with `-l` asks for the doctor
/// report; one that starts with `--log-file` or `--log-level` turns logging on.
pub proof fn law_leading_flags(args: Seq<Seq<char>>, st: OptionsModel)
    requires
        args.len() > 0,
    ensures
        args[0] == "-l"@ ==> (options_from(args, st) matches Ok(o) ==> o.1),
        args[0] == "--log-file"@ || args[0] == "--log-level"@ ==> (options_from(args, st) matches Ok(o) ==> o.0),
{
    reveal_strlit("-l");
    reveal_strlit("--log");
    reveal_strlit("--log-file");
    reveal_strlit("--log-level");
    assert("-l"@.len() != "--log"@.len());
    assert("--log-file"@.len() != "--log"@.len() && "--log-file"@.len() != "-l"@.len());
    assert("--log-level"@.len() != "--log"@.len() && "--log-level"@.len() != "-l"@.len());
    assert("--log-level"@.len() != "--log-file"@.len());
    let rest = args.drop_first();
    lemma_doctor_stays_on(rest, (st.0, true, st.2, st.3));
    if rest.len() > 0 {
        lemma_logging_stays_on(rest.drop_first(), (true, st.1, Some(rest[0]), st.3));
        match level_of(rest[0]) {
            Ok(l) => lemma_logging_stays_on(rest.drop_first(), (true, st.1, st.2, l)),
            Err(_) => {},
        }
    }
}

/// How each flag reads, whatever follows it: `-l` asks for the doctor
/// report; `--log-file P` turns logging on and logs to `P`; `--log-level L`
/// turns logging on at the level `L` names (in any letter case); a
/// `--log-file` or `--log-level` with nothing after it is refused.
pub proof fn law_flag_steps(p: Seq<char>, rest: Seq<Seq<char>>, st: OptionsModel)
    ensures
        options_from(seq!["-l"@] + rest, st) == options_from(rest, (st.0, true, st.2, st.3)),
        options_from(seq!["--log-file"@, p] + rest, st) == options_from(rest, (true, st.1, Some(p), st.3)),
        options_from(seq!["--log-file"@], st) == Err::<OptionsModel, Seq<char>>("--log-file requires a path argument"@),
        options_from(seq!["--log-level"@], st) == Err::<OptionsModel, Seq<char>>(
            "--log-level requires one of: error, warn, info, debug, trace"@,
        ),
        lower(p) == "error"@ ==> options_from(seq!["--log-level"@, p] + rest, st) == options_from(
            rest,
            (true, st.1, st.2, LogLevel::Error),
        ),
        lower(p) == "warn"@ || lower(p) == "warning"@ ==> options_from(seq!["--log-level"@, p] + rest, st)
            == options_from(rest, (true, st.1, st.2, LogLevel::Warn)),
        lower(p) == "info"@ ==> options_from(seq!["--log-level"@, p] + rest, st) == options_from(
            rest,
            (true, st.1, st.2, LogLevel::Info),
        ),
        lower(p) == "debug"@ ==> options_from(seq!["--log-level"@, p] + rest, st) == options_from(
            rest,
            (true, st.1, st.2, LogLevel::Debug),
        ),
        lower(p) == "trace"@ ==> options_from(seq!["--log-level"@, p] + rest, st) == options_from(
            rest,
            (true, st.1, st.2, LogLevel::Trace),
        ),
{
    reveal_strlit("-l");
    reveal_strlit("--log");
    reveal_strlit("--log-file");
    reveal_strlit("--log-level");
    reveal_strlit("error");
    reveal_strlit("warn");
    reveal_strlit("warning");
    reveal_strlit("info");
    reveal_strlit("debug");
    reveal_strlit("trace");
    assert("-l"@.len() != "--log"@.len());
    assert("--log-file"@.len() != "--log"@.len() && "--log-file"@.len() != "-l"@.len());
    assert("--log-level"@.len() != "--log"@.len() && "--log-level"@.len() != "-l"@.len());
    assert("--log-level"@.len() != "--log-file"@.len());
    assert("warn"@ != "error"@ && "warning"@ != "error"@ && "info"@ != "error"@ && "debug"@ != "error"@
        && "trace"@ != "error"@) by {
        assert("warn"@[0] != "error"@[0]);
        assert("info"@[0] != "error"@[0]);
        assert("debug"@[0] != "error"@[0]);
        assert("trace"@[0] != "error"@[0]);
    }
    assert("info"@ != "warn"@ && "info"@ != "warning"@ && "debug"@ != "warn"@ && "debug"@ != "warning"@
        && "trace"@ != "warn"@ && "trace"@ != "warning"@) by {
        assert("info"@[0] != "warn"@[0]);
        assert("debug"@[0] != "warn"@[0]);
        assert("trace"@[0] != "warn"@[0]);
    }
    assert("debug"@ != "info"@ && "trace"@ != "info"@ && "trace"@ != "debug"@) by {
        assert("debug"@[0] != "info"@[0]);
        assert("trace"@[0] != "info"@[0]);
        assert("trace"@[0] != "debug"@[0]);
    }
    assert((seq!["-l"@] + rest).drop_first() =~= rest);
    assert((seq!["--log-file"@, p] + rest).drop_first().drop_first() =~= rest);
    assert((seq!["--log-level"@, p] + rest).drop_first().drop_first() =~= rest);
    assert(seq!["--log-file"@].drop_first() =~= Seq::<Seq<char>>::empty());
    assert(seq!["--log-level"@].drop_first() =~= Seq::<Seq<char>>::empty());
}

} // verus!

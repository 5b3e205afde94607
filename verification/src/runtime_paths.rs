//! Where the application keeps its configuration, data, cache and logs.
//!
//! The environment and the file system are read by the caller; these
//! functions decide from what was read.
use vstd::prelude::*;

use crate::text::{cat, cat3, chars_of, opt_string_view, owned, trim, trimmed};

verus! {

/// `PathBuf::join` on Unix: an absolute component replaces the base;
/// otherwise a `/` separates them unless the base is empty or ends in one.
pub open spec fn path_join(base: Seq<char>, comp: Seq<char>) -> Seq<char> {
    if comp.len() > 0 && comp[0] == '/' {
        comp
    } else if base.len() == 0 || base.last() == '/' {
        base + comp
    } else {
        base + "/"@ + comp
    }
}

/// `s` starts with a drive prefix such as `C:`.
pub open spec fn has_drive_prefix(s: Seq<char>) -> bool {
    s.len() >= 2 && s[1] == ':' && (('a' <= s[0] && s[0] <= 'z') || ('A' <= s[0] && s[0] <= 'Z'))
}

pub open spec fn is_windows_separator(c: char) -> bool {
    c == '/' || c == '\\'
}

/// `PathBuf::join` under the platform's rules. On Windows: a component with
/// a drive prefix replaces the base; one that starts at a root keeps only
/// the base's drive; otherwise a backslash separates them unless the base is
/// empty, ends in a separator, or is a bare drive.
pub open spec fn path_join_on(base: Seq<char>, comp: Seq<char>, windows: bool) -> Seq<char> {
    if !windows {
        path_join(base, comp)
    } else if has_drive_prefix(comp) {
        comp
    } else if comp.len() > 0 && is_windows_separator(comp[0]) {
        if has_drive_prefix(base) {
            base.take(2) + comp
        } else {
            comp
        }
    } else if base.len() == 0 || is_windows_separator(base.last()) || (base.len() == 2 && has_drive_prefix(base)) {
        base + comp
    } else {
        base + "\\"@ + comp
    }
}

/// The application's directory name; debug builds keep theirs apart.
pub open spec fn app_dir_name(debug: bool) -> Seq<char> {
    if debug {
        "gitTUIt-dev"@
    } else {
        "gitTUIt"@
    }
}

pub open spec fn config_dir_empty_message() -> Seq<char> {
    "GITTUIT_CONFIG_DIR is set but empty. Provide a valid directory path."@
}

/// The configuration directory: `GITTUIT_CONFIG_DIR` (trimmed) when it is
/// set, else the application's directory under the platform's
/// configuration directory.
pub open spec fn config_dir_of(config_env: Option<Seq<char>>, platform: Option<Seq<char>>, debug: bool) -> Result<
    Seq<char>,
    Seq<char>,
> {
    match config_env {
        Some(v) => if trim(v).len() == 0 {
            Err(config_dir_empty_message())
        } else {
            Ok(trim(v))
        },
        None => match platform {
            Some(base) => Ok(path_join(base, app_dir_name(debug))),
            None => Err("Could not determine config directory"@),
        },
    }
}

/// The data (`kind == "data"`) or cache (`kind == "cache"`) directory:
/// the application's directory under the platform's directory of that kind.
pub open spec fn kind_dir_of(kind: Seq<char>, platform: Option<Seq<char>>, debug: bool) -> Result<Seq<char>, Seq<char>> {
    match platform {
        Some(base) => Ok(path_join(base, app_dir_name(debug))),
        None => Err("Could not determine "@ + kind + " directory"@),
    }
}

/// `base` joined with the relative or absolute component `comp`.
pub fn path_join_exec(base: &str, comp: &str) -> (res: String)
    ensures
        res@ == path_join(base@, comp@),
{
    let c = chars_of(comp);
    if c.len() > 0 && c[0] == '/' {
        return owned(comp);
    }
    let b = chars_of(base);
    if b.len() == 0 || b[b.len() - 1] == '/' {
        return cat(base, comp);
    }
    cat3(base, "/", comp)
}

fn drive_prefixed(v: &Vec<char>) -> (res: bool)
    ensures
        res == has_drive_prefix(v@),
{
    v.len() >= 2 && v[1] == ':' && ((v[0] >= 'a' && v[0] <= 'z') || (v[0] >= 'A' && v[0] <= 'Z'))
}

/// `base` joined with `comp` under the platform's rules.
pub fn path_join_on_exec(base: &str, comp: &str, windows: bool) -> (res: String)
    ensures
        res@ == path_join_on(base@, comp@, windows),
{
    if !windows {
        return path_join_exec(base, comp);
    }
    let c = chars_of(comp);
    let b = chars_of(base);
    if drive_prefixed(&c) {
        return owned(comp);
    }
    if c.len() > 0 && (c[0] == '/' || c[0] == '\\') {
        if drive_prefixed(&b) {
            let drive = crate::text::string_of_range(&b, 0, 2);
            return cat(drive.as_str(), comp);
        }
        return owned(comp);
    }
    if b.len() == 0 || b[b.len() - 1] == '/' || b[b.len() - 1] == '\\' || (b.len() == 2 && drive_prefixed(&b)) {
        return cat(base, comp);
    }
    cat3(base, "\\", comp)
}

fn app_dir_name_exec(debug: bool) -> (res: &'static str)
    ensures
        res@ == app_dir_name(debug),
{
    if debug {
        "gitTUIt-dev"
    } else {
        "gitTUIt"
    }
}

/// The configuration directory from the variable `GITTUIT_CONFIG_DIR` (when
/// set) and the platform's configuration directory (when there is one).
pub fn config_dir(config_env: &Option<String>, platform: &Option<String>, debug: bool) -> (res: Result<String, String>)
    ensures
        match res {
            Ok(p) => config_dir_of(opt_string_view(*config_env), opt_string_view(*platform), debug)
                == Ok::<_, Seq<char>>(p@),
            Err(e) => config_dir_of(opt_string_view(*config_env), opt_string_view(*platform), debug)
                == Err::<Seq<char>, _>(e@),
        },
{
    match config_env {
        Some(v) => {
            let t = trimmed(v.as_str());
            if t.as_str().unicode_len() == 0 {
                return Err(owned("GITTUIT_CONFIG_DIR is set but empty. Provide a valid directory path."));
            }
            return Ok(t);
        },
        None => {},
    }
    match platform {
        Some(base) => Ok(path_join_exec(base.as_str(), app_dir_name_exec(debug))),
        None => Err(owned("Could not determine config directory")),
    }
}

fn kind_dir(kind: &str, platform: &Option<String>, debug: bool) -> (res: Result<String, String>)
    ensures
        match res {
            Ok(p) => kind_dir_of(kind@, opt_string_view(*platform), debug) == Ok::<_, Seq<char>>(p@),
            Err(e) => kind_dir_of(kind@, opt_string_view(*platform), debug) == Err::<Seq<char>, _>(e@),
        },
{
    match platform {
        Some(base) => Ok(path_join_exec(base.as_str(), app_dir_name_exec(debug))),
        None => Err(cat3("Could not determine ", kind, " directory")),
    }
}

/// The data directory: the application's directory under the platform's
/// data directory (when there is one).
pub fn data_dir(platform: &Option<String>, debug: bool) -> (res: Result<String, String>)
    ensures
        match res {
            Ok(p) => kind_dir_of("data"@, opt_string_view(*platform), debug) == Ok::<_, Seq<char>>(p@),
            Err(e) => kind_dir_of("data"@, opt_string_view(*platform), debug) == Err::<Seq<char>, _>(e@),
        },
{
    kind_dir("data", platform, debug)
}

/// The cache directory: the application's directory under the platform's
/// cache directory (when there is one).
pub fn cache_dir(platform: &Option<String>, debug: bool) -> (res: Result<String, String>)
    ensures
        match res {
            Ok(p) => kind_dir_of("cache"@, opt_string_view(*platform), debug) == Ok::<_, Seq<char>>(p@),
            Err(e) => kind_dir_of("cache"@, opt_string_view(*platform), debug) == Err::<Seq<char>, _>(e@),
        },
{
    kind_dir("cache", platform, debug)
}

/// The log directory: `logs` under the configuration directory.
pub fn logs_dir(config_dir: &str) -> (res: String)
    ensures
        res@ == path_join(config_dir@, "logs"@),
{
    path_join_exec(config_dir, "logs")
}

} // verus!

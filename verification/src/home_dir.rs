use vstd::prelude::*;

use crate::text::{
    ascii_lower_seq, eq_ignore_ascii_case, file_name, has_prefix, join_path, join_relative,
    debug_quoted, debug_repr, lowercase_ascii, path_file_name, trim, trim_ws,
};

verus! {

pub const CODEX_HOME_ENV_VAR: &'static str = "CODEX_HOME";

pub const DCCODEX_HOME_ENV_VAR: &'static str = "DCCODEX_HOME";

pub const CODEX_HOME_DIRNAME: &'static str = ".codex";

pub const DCCODEX_HOME_DIRNAME: &'static str = ".dccodex";

/// A home directory named by an environment variable, with that variable's name.
#[derive(Clone, Debug, PartialEq, Eq)]
pub struct HomeEnvOverride {
    pub env_var_name: &'static str,
    pub value: String,
}

pub open spec fn opt_str_view(v: Option<&str>) -> Option<Seq<char>> {
    match v {
        Some(s) => Some(s@),
        None => None,
    }
}

/// An executable name that selects the `dccodex` flavour (`dccodex*`):
/// after trimming and lowering ASCII letters it starts with `dccodex`.
pub open spec fn spec_is_dccodex_executable(name: Option<Seq<char>>) -> bool {
    match name {
        Some(n) => {
            let norm = ascii_lower_seq(trim_ws(n));
            "dccodex"@.is_prefix_of(norm)
        },
        None => false,
    }
}

/// The trimmed value of a variable that is set to something other than blanks.
pub open spec fn nonblank(v: Option<Seq<char>>) -> Option<Seq<char>> {
    match v {
        Some(s) => if trim_ws(s).len() > 0 {
            Some(trim_ws(s))
        } else {
            None
        },
        None => None,
    }
}

/// Which variable names the home directory, and its value: `CODEX_HOME`
/// always wins; `DCCODEX_HOME` counts only for a `dccodex` executable.
pub open spec fn spec_home_override(
    codex_home: Option<Seq<char>>,
    dccodex_home: Option<Seq<char>>,
    executable: Option<Seq<char>>,
) -> Option<(Seq<char>, Seq<char>)> {
    match nonblank(codex_home) {
        Some(v) => Some((CODEX_HOME_ENV_VAR@, v)),
        None => if spec_is_dccodex_executable(executable) {
            match nonblank(dccodex_home) {
                Some(v) => Some((DCCODEX_HOME_ENV_VAR@, v)),
                None => None,
            }
        } else {
            None
        },
    }
}

pub open spec fn override_view(o: Option<HomeEnvOverride>) -> Option<(Seq<char>, Seq<char>)> {
    match o {
        Some(h) => Some((h.env_var_name@, h.value@)),
        None => None,
    }
}

pub open spec fn spec_default_home_dirname(executable: Option<Seq<char>>) -> Seq<char> {
    if spec_is_dccodex_executable(executable) {
        DCCODEX_HOME_DIRNAME@
    } else {
        CODEX_HOME_DIRNAME@
    }
}

/// A home directory whose last component is `.dccodex`, in any ASCII case.
pub open spec fn spec_is_dccodex_home_dir(codex_home: Seq<char>) -> bool {
    match path_file_name(codex_home) {
        Some(name) => ascii_lower_seq(name) == ascii_lower_seq(DCCODEX_HOME_DIRNAME@),
        None => false,
    }
}

pub open spec fn spec_project_config_dir_name(
    executable: Option<Seq<char>>,
    codex_home: Seq<char>,
) -> Seq<char> {
    if spec_is_dccodex_executable(executable) || spec_is_dccodex_home_dir(codex_home) {
        DCCODEX_HOME_DIRNAME@
    } else {
        CODEX_HOME_DIRNAME@
    }
}

/// The executable's name: the last component of the first program argument.
pub open spec fn spec_executable_name(arg0: Option<Seq<char>>) -> Option<Seq<char>> {
    match arg0 {
        Some(a) => path_file_name(a),
        None => None,
    }
}

pub fn is_dccodex_executable(executable_name: Option<&str>) -> (r: bool)
    ensures
        r == spec_is_dccodex_executable(opt_str_view(executable_name)),
{
    match executable_name {
        Some(name) => {
            let trimmed = trim(name);
            let normalized = lowercase_ascii(trimmed.as_str());
            has_prefix(normalized.as_str(), "dccodex")
        },
        None => false,
    }
}

fn nonblank_value(v: Option<&str>) -> (r: Option<String>)
    ensures
        r matches Some(s) ==> nonblank(opt_str_view(v)) == Some(s@),
        r is None ==> nonblank(opt_str_view(v)) is None,
{
    match v {
        Some(s) => {
            let t = trim(s);
            if t.as_str().unicode_len() > 0 {
                Some(t)
            } else {
                None
            }
        },
        None => None,
    }
}

/// Picks the variable that names the home directory, if any.
pub fn resolve_home_env_override(
    codex_home_env: Option<&str>,
    dccodex_home_env: Option<&str>,
    executable_name: Option<&str>,
) -> (r: Option<HomeEnvOverride>)
    ensures
        override_view(r) == spec_home_override(
            opt_str_view(codex_home_env),
            opt_str_view(dccodex_home_env),
            opt_str_view(executable_name),
        ),
{
    if let Some(value) = nonblank_value(codex_home_env) {
        return Some(HomeEnvOverride { env_var_name: CODEX_HOME_ENV_VAR, value });
    }
    if is_dccodex_executable(executable_name) {
        return match nonblank_value(dccodex_home_env) {
            Some(value) => Some(HomeEnvOverride { env_var_name: DCCODEX_HOME_ENV_VAR, value }),
            None => None,
        };
    }
    None
}

/// The directory name under the user's home used when no variable is set.
pub fn default_home_dirname(executable_name: Option<&str>) -> (r: &'static str)
    ensures
        r@ == spec_default_home_dirname(opt_str_view(executable_name)),
{
    if is_dccodex_executable(executable_name) {
        DCCODEX_HOME_DIRNAME
    } else {
        CODEX_HOME_DIRNAME
    }
}

pub fn is_dccodex_home_dir(codex_home: &str) -> (r: bool)
    ensures
        r == spec_is_dccodex_home_dir(codex_home@),
{
    match file_name(codex_home) {
        Some(name) => eq_ignore_ascii_case(name.as_str(), DCCODEX_HOME_DIRNAME),
        None => false,
    }
}

/// The project-local config directory name for a given executable name and home.
pub fn project_config_dir_name_for(executable_name: Option<&str>, codex_home: &str) -> (r:
    &'static str)
    ensures
        r@ == spec_project_config_dir_name(opt_str_view(executable_name), codex_home@),
{
    if is_dccodex_executable(executable_name) || is_dccodex_home_dir(codex_home) {
        DCCODEX_HOME_DIRNAME
    } else {
        CODEX_HOME_DIRNAME
    }
}

/// The executable's name from the raw first program argument.
pub fn executable_name(arg0: Option<&str>) -> (r: Option<String>)
    ensures
        r matches Some(n) ==> spec_executable_name(opt_str_view(arg0)) == Some(n@),
        r is None ==> spec_executable_name(opt_str_view(arg0)) is None,
{
    match arg0 {
        Some(a) => file_name(a),
        None => None,
    }
}

/// The project-local config directory name (`.dccodex` or `.codex`) for the
/// program started as `arg0` with home directory `codex_home`.
pub fn project_config_dir_name(arg0: Option<&str>, codex_home: &str) -> (r: &'static str)
    ensures
        r@ == spec_project_config_dir_name(spec_executable_name(opt_str_view(arg0)), codex_home@),
{
    let name = executable_name(arg0);
    match name {
        Some(n) => project_config_dir_name_for(Some(n.as_str()), codex_home),
        None => project_config_dir_name_for(None, codex_home),
    }
}


/// What a look at the directory named by a home variable found.
#[derive(Clone, Debug, PartialEq, Eq)]
pub enum HomeDirProbe {
    Missing,
    Unreadable { detail: String },
    NotADirectory,
    Directory,
}

/// The class of a home-directory error; `Other` keeps the class of the
/// underlying failure.
#[derive(Clone, Copy, Debug, PartialEq, Eq)]
pub enum HomeDirErrorKind {
    NotFound,
    InvalidInput,
    Other,
}

#[derive(Clone, Debug, PartialEq, Eq)]
pub struct HomeDirError {
    pub kind: HomeDirErrorKind,
    pub message: String,
}

pub open spec fn var_name_or_default(name: Option<Seq<char>>) -> Seq<char> {
    match name {
        Some(n) => n,
        None => CODEX_HOME_ENV_VAR@,
    }
}

pub open spec fn missing_home_message(var: Seq<char>, value: Seq<char>) -> Seq<char> {
    var + " points to "@ + debug_repr(value) + ", but that path does not exist"@
}

pub open spec fn unreadable_home_message(var: Seq<char>, value: Seq<char>, detail: Seq<char>) -> Seq<char> {
    "failed to read "@ + var + " "@ + debug_repr(value) + ": "@ + detail
}

pub open spec fn not_directory_message(var: Seq<char>, value: Seq<char>) -> Seq<char> {
    var + " points to "@ + debug_repr(value) + ", but that path is not a directory"@
}

pub open spec fn canonicalize_failed_message(var: Seq<char>, value: Seq<char>, detail: Seq<char>) -> Seq<char> {
    "failed to canonicalize "@ + var + " "@ + debug_repr(value) + ": "@ + detail
}

/// The verdict on a home variable's directory: accepted only when it is a directory.
pub open spec fn spec_probe_verdict(var: Seq<char>, value: Seq<char>, probe: HomeDirProbe) -> Result<
    (),
    (HomeDirErrorKind, Seq<char>),
> {
    match probe {
        HomeDirProbe::Missing => Err((HomeDirErrorKind::NotFound, missing_home_message(var, value))),
        HomeDirProbe::Unreadable { detail } => Err(
            (HomeDirErrorKind::Other, unreadable_home_message(var, value, detail@)),
        ),
        HomeDirProbe::NotADirectory => Err(
            (HomeDirErrorKind::InvalidInput, not_directory_message(var, value)),
        ),
        HomeDirProbe::Directory => Ok(()),
    }
}

pub open spec fn error_view(r: Result<(), HomeDirError>) -> Result<(), (HomeDirErrorKind, Seq<char>)> {
    match r {
        Ok(()) => Ok(()),
        Err(e) => Err((e.kind, e.message@)),
    }
}

fn env_var_name_or_default(name: Option<&str>) -> (r: &str)
    ensures
        r@ == var_name_or_default(opt_str_view(name)),
{
    match name {
        Some(n) => n,
        None => CODEX_HOME_ENV_VAR,
    }
}

/// Judges the directory that a home variable names (`env_var_name` defaults
/// to `CODEX_HOME`): missing, unreadable and non-directory paths are errors.
pub fn check_home_dir_probe(env_var_name: Option<&str>, value: &str, probe: HomeDirProbe) -> (r:
    Result<(), HomeDirError>)
    ensures
        error_view(r) == spec_probe_verdict(
            var_name_or_default(opt_str_view(env_var_name)),
            value@,
            probe,
        ),
{
    let var = env_var_name_or_default(env_var_name);
    match probe {
        HomeDirProbe::Missing => {
            let mut m = String::from_str(var);
            m.append(" points to ");
            m.append(debug_quoted(value).as_str());
            m.append(", but that path does not exist");
            Err(HomeDirError { kind: HomeDirErrorKind::NotFound, message: m })
        },
        HomeDirProbe::Unreadable { detail } => {
            let mut m = String::from_str("failed to read ");
            m.append(var);
            m.append(" ");
            m.append(debug_quoted(value).as_str());
            m.append(": ");
            m.append(detail.as_str());
            Err(HomeDirError { kind: HomeDirErrorKind::Other, message: m })
        },
        HomeDirProbe::NotADirectory => {
            let mut m = String::from_str(var);
            m.append(" points to ");
            m.append(debug_quoted(value).as_str());
            m.append(", but that path is not a directory");
            Err(HomeDirError { kind: HomeDirErrorKind::InvalidInput, message: m })
        },
        HomeDirProbe::Directory => Ok(()),
    }
}

/// The error for a home directory that could not be canonicalized.
pub fn canonicalize_failure(env_var_name: Option<&str>, value: &str, detail: &str) -> (r:
    HomeDirError)
    ensures
        r.kind == HomeDirErrorKind::Other,
        r.message@ == canonicalize_failed_message(
            var_name_or_default(opt_str_view(env_var_name)),
            value@,
            detail@,
        ),
{
    let var = env_var_name_or_default(env_var_name);
    let mut m = String::from_str("failed to canonicalize ");
    m.append(var);
    m.append(" ");
    m.append(debug_quoted(value).as_str());
    m.append(": ");
    m.append(detail);
    HomeDirError { kind: HomeDirErrorKind::Other, message: m }
}

/// The home directory used when no variable names one: the user's home
/// joined with `.codex` or `.dccodex`; an error when the user's home is unknown.
pub fn default_codex_home(user_home: Option<&str>, executable_name: Option<&str>) -> (r: Result<
    String,
    HomeDirError,
>)
    ensures
        user_home is None <==> r is Err,
        r matches Err(e) ==> e.kind == HomeDirErrorKind::NotFound && e.message@
            == "Could not find home directory"@,
        r matches Ok(p) ==> p@ == join_relative(
            user_home->0@,
            spec_default_home_dirname(opt_str_view(executable_name)),
        ),
{
    match user_home {
        Some(h) => Ok(join_path(h, default_home_dirname(executable_name))),
        None => Err(
            HomeDirError {
                kind: HomeDirErrorKind::NotFound,
                message: String::from_str("Could not find home directory"),
            },
        ),
    }
}


/// `CODEX_HOME`, when set to something other than blanks, always names the
/// home directory, whatever the executable and `DCCODEX_HOME`.
pub proof fn law_codex_home_always_wins(
    codex_home: Seq<char>,
    dccodex_home: Option<Seq<char>>,
    executable: Option<Seq<char>>,
)
    requires
        trim_ws(codex_home).len() > 0,
    ensures
        spec_home_override(Some(codex_home), dccodex_home, executable) == Some(
            (CODEX_HOME_ENV_VAR@, trim_ws(codex_home)),
        ),
{
}

/// `DCCODEX_HOME` is ignored unless the executable is a `dccodex` one.
pub proof fn law_dccodex_home_needs_dccodex_executable(
    codex_home: Option<Seq<char>>,
    dccodex_home: Option<Seq<char>>,
    executable: Option<Seq<char>>,
)
    requires
        nonblank(codex_home) is None,
        !spec_is_dccodex_executable(executable),
    ensures
        spec_home_override(codex_home, dccodex_home, executable) is None,
{
}

/// A `dccodex` executable keeps its own directories: `.dccodex` both under
/// the user's home and in projects, whatever its home is called.
pub proof fn law_dccodex_executable_is_isolated(executable: Option<Seq<char>>, codex_home: Seq<char>)
    requires
        spec_is_dccodex_executable(executable),
    ensures
        spec_default_home_dirname(executable) == DCCODEX_HOME_DIRNAME@,
        spec_project_config_dir_name(executable, codex_home) == DCCODEX_HOME_DIRNAME@,
{
}

} // verus!

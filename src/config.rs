//! Execution mode, environment-file selection and diagnostic flags.
use crate::text::{lines_view, opt_view};
use vstd::prelude::*;

verus! {

/// The mode that applies when the mode variable is not set.
pub open spec fn default_mode() -> Seq<char> {
    "development"@
}

/// The one mode with a configuration file of its own besides the default.
pub open spec fn production_mode() -> Seq<char> {
    "production"@
}

/// The mode selected by the value of the mode variable, if it was set.
pub open spec fn resolved_mode(var: Option<Seq<char>>) -> Seq<char> {
    match var {
        Some(v) => v,
        None => default_mode(),
    }
}

/// The environment file tried first for a mode.
pub open spec fn mode_file(mode: Seq<char>) -> Seq<char> {
    if mode == production_mode() {
        ".env.production"@
    } else {
        ".env.development"@
    }
}

/// Resolves the execution mode from the mode variable, if it was set.
pub fn resolve_mode(var: Option<String>) -> (r: String)
    ensures
        r@ == resolved_mode(opt_view(var)),
{
    match var {
        Some(v) => v,
        None => String::from_str("development"),
    }
}

/// Whether the debug variable turns diagnostics on: only the exact value `true` does.
pub open spec fn debug_on(flag: Option<Seq<char>>) -> bool {
    flag == Some("true"@)
}

/// The log level that is reported, `info` when the variable is not set.
pub open spec fn reported_log_level(var: Option<Seq<char>>) -> Seq<char> {
    match var {
        Some(v) => v,
        None => "info"@,
    }
}

/// The lines printed once configuration has been resolved.
pub open spec fn config_lines(mode: Seq<char>, debug: bool, level: Option<Seq<char>>) -> Seq<
    Seq<char>,
> {
    let first = seq!["Modo de ejecuci\u{f3}n: "@ + mode];
    if debug {
        first + seq![
            "Modo de depuraci\u{f3}n activado"@,
            "Nivel  de log: "@ + reported_log_level(level),
        ]
    } else {
        first
    }
}

/// A place environment variables are loaded from, in the order tried.
pub enum EnvSource {
    /// The file named after the execution mode.
    ModeFile(String),
    /// The generic `.env` file, searched for from the working directory upwards.
    DefaultFile,
}

/// Picks the environment file tried first for a mode.
pub fn mode_file_name(mode: &String) -> (r: String)
    ensures
        r@ == mode_file(mode@),
{
    let production = String::from_str("production");
    if *mode == production {
        String::from_str(".env.production")
    } else {
        String::from_str(".env.development")
    }
}

/// The sources of environment variables in the order they are tried.
///
/// The first one that loads wins; variables already present in the process
/// environment are never overridden by either.
pub fn env_sources(mode: &String) -> (r: Vec<EnvSource>)
    ensures
        r@.len() == 2,
        r@[0] matches EnvSource::ModeFile(f) && f@ == mode_file(mode@),
        r@[1] is DefaultFile,
{
    let mut r: Vec<EnvSource> = Vec::new();
    r.push(EnvSource::ModeFile(mode_file_name(mode)));
    r.push(EnvSource::DefaultFile);
    r
}

/// Whether the value of the debug variable enables diagnostics.
pub fn debug_enabled(flag: &Option<String>) -> (r: bool)
    ensures
        r == debug_on(opt_view(*flag)),
{
    match flag {
        Some(v) => {
            let on = String::from_str("true");
            *v == on
        },
        None => false,
    }
}

/// The lines that report the resolved configuration.
pub fn config_report(mode: &String, debug: bool, level: Option<String>) -> (r: Vec<String>)
    ensures
        lines_view(r@) == config_lines(mode@, debug, opt_view(level)),
{
    let mut first = String::from_str("Modo de ejecuci\u{f3}n: ");
    first.append(mode.as_str());
    let mut r: Vec<String> = Vec::new();
    r.push(first);
    if debug {
        r.push(String::from_str("Modo de depuraci\u{f3}n activado"));
        let mut line = String::from_str("Nivel  de log: ");
        match level {
            Some(l) => line.append(l.as_str()),
            None => line.append("info"),
        }
        r.push(line);
    }
    assert(lines_view(r@) =~= config_lines(mode@, debug, opt_view(level)));
    r
}

/// Without the mode variable the mode is `development`, and its file is the
/// first source of environment variables tried.
pub proof fn lemma_unset_mode_tries_development_file()
    ensures
        resolved_mode(None) == "development"@,
        mode_file(resolved_mode(None)) == ".env.development"@,
{
    reveal_strlit("development");
    reveal_strlit("production");
    assert(default_mode()[0] != production_mode()[0]);
}

} // verus!

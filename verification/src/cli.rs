//! The command line of the application and the paths it resolves to.

use crate::text::{optional_text, texts};
use clap::{Arg, ArgAction, Command};
use vstd::prelude::*;
use vstd::string::*;

verus! {

/// The name of the configuration file beside the executable.
pub const DEFAULT_CONFIG_FILE: &'static str = "wstunnel_config.yaml";

/// The name of the tunnel binary on Windows.
pub const WINDOWS_BINARY_NAME: &'static str = "wstunnel.exe";

/// The name of the tunnel binary elsewhere.
pub const BINARY_NAME: &'static str = "wstunnel";

/// What the help text says of the program.
pub const ABOUT: &'static str =
    "wstunnel Manager - GUI and headless mode for managing wstunnel instances";

/// What the help text says of `--headless`.
pub const HEADLESS_HELP: &'static str = "Run in headless mode without GUI";

/// What the help text says of `--config`.
pub const CONFIG_HELP: &'static str = "Path to configuration file";

/// What the help text says of `--wstunnel-path`.
pub const BINARY_HELP: &'static str = "Path to wstunnel binary";

/// What `clap` makes of the arguments `argv` for a command with the switch
/// `--headless` and the options `--config` and `--wstunnel-path`: the switch
/// and the two values, or nothing where it refuses the arguments or answers
/// them with its help text.
pub uninterp spec fn clap_outcome(argv: Seq<Seq<char>>) -> Option<
    (bool, Option<Seq<char>>, Option<Seq<char>>),
>;

/// What the command line asked for.
#[derive(Debug)]
pub struct Args {
    /// Run without the graphical interface.
    pub headless: bool,
    /// The configuration file to use.
    pub config: Option<String>,
    /// The tunnel binary to use.
    pub wstunnel_path: Option<String>,
}

/// Why the command line gave no arguments to work with.
#[derive(Debug)]
pub struct CliRefusal {
    /// What to show the user: the reason of a refusal, or the help text that
    /// was asked for.
    pub text: String,
    /// The text tells of a mistake and belongs on the error output; where it
    /// does not, it answers a request, such as the one for help.
    pub is_error: bool,
}

/// Parses `argv`, whose first item is the program's name, with `clap`.
///
/// Builds a `clap::Command` with one switch and two options that each take
/// one string, and calls `Command::try_get_matches_from`, `ArgMatches::get_flag`
/// and `ArgMatches::get_one`; of an error it takes the text and
/// `Error::use_stderr`. Whether the arguments are accepted, and the values
/// read from them, depend on `argv` alone; what is said in place of the
/// arguments is not described.
#[verifier::external_body]
fn run_clap(argv: &Vec<String>) -> (parsed: Result<Args, CliRefusal>)
    ensures
        match parsed {
            Ok(args) => clap_outcome(texts(argv@)) == Some(
                (args.headless, optional_text(args.config), optional_text(args.wstunnel_path)),
            ),
            Err(_) => clap_outcome(texts(argv@)) is None,
        },
{
    let matches = Command::new("wstunnel_manager")
        .about(ABOUT)
        .arg(Arg::new("headless").long("headless").action(ArgAction::SetTrue).help(HEADLESS_HELP))
        .arg(Arg::new("config").long("config").action(ArgAction::Set).help(CONFIG_HELP))
        .arg(Arg::new("wstunnel_path").long("wstunnel-path").action(ArgAction::Set).help(BINARY_HELP))
        .try_get_matches_from(argv)
        .map_err(|e| CliRefusal { text: e.to_string(), is_error: e.use_stderr() })?;
    Ok(Args {
        headless: matches.get_flag("headless"),
        config: matches.get_one::<String>("config").cloned(),
        wstunnel_path: matches.get_one::<String>("wstunnel_path").cloned(),
    })
}

/// The paths the application works with.
#[derive(Debug)]
pub struct LaunchPaths {
    /// The configuration file.
    pub config_path: String,
    /// The tunnel binary.
    pub wstunnel_binary_path: String,
}

/// The place of the file `name` in the directory `dir`, or `name` alone
/// where no directory is known.
pub open spec fn beside(dir: Option<Seq<char>>, name: Seq<char>) -> Seq<char> {
    match dir {
        Some(dir) => dir + "/"@ + name,
        None => name,
    }
}

/// The name of the tunnel binary on the given platform.
pub open spec fn binary_name(windows: bool) -> Seq<char> {
    if windows {
        WINDOWS_BINARY_NAME@
    } else {
        BINARY_NAME@
    }
}

/// The place of `name` in `dir`, or `name` alone where no directory is known.
fn place_beside(dir: &Option<String>, name: &str) -> (path: String)
    ensures
        path@ == beside(optional_text(*dir), name@),
{
    match dir {
        Some(dir) => {
            let mut path = dir.clone();
            path.append("/");
            path.append(name);
            path
        },
        None => String::from_str(name),
    }
}

impl Args {
    /// Parses the command line `argv`, whose first item is the program's
    /// name. Where it gives no arguments, it gives what to show the user.
    pub fn try_parse_from(argv: &Vec<String>) -> (parsed: Result<Args, CliRefusal>)
        ensures
            parsed is Ok <==> clap_outcome(texts(argv@)) is Some,
            parsed matches Ok(args) ==> clap_outcome(texts(argv@)) == Some(
                (args.headless, optional_text(args.config), optional_text(args.wstunnel_path)),
            ),
    {
        run_clap(argv)
    }

    /// The paths to work with: those the command line names, and for the
    /// others the default file beside the executable, whose directory is
    /// `exe_dir` where it is known.
    pub fn resolve_paths(&self, exe_dir: &Option<String>, windows: bool) -> (paths: LaunchPaths)
        ensures
            paths.config_path@ == match self.config {
                Some(path) => path@,
                None => beside(optional_text(*exe_dir), DEFAULT_CONFIG_FILE@),
            },
            paths.wstunnel_binary_path@ == match self.wstunnel_path {
                Some(path) => path@,
                None => beside(optional_text(*exe_dir), binary_name(windows)),
            },
    {
        let config_path = match &self.config {
            Some(path) => path.clone(),
            None => place_beside(exe_dir, DEFAULT_CONFIG_FILE),
        };
        let name = if windows {
            WINDOWS_BINARY_NAME
        } else {
            BINARY_NAME
        };
        let wstunnel_binary_path = match &self.wstunnel_path {
            Some(path) => path.clone(),
            None => place_beside(exe_dir, name),
        };
        LaunchPaths { config_path, wstunnel_binary_path }
    }
}

} // verus!

//! The platform model: which operating system the helper runs on, and the
//! command that asks that system to open a file with its default handler.
//!
//! Exactly three platforms are supported. On any other platform opening a
//! file is a silent no-op: no command is produced and no error is raised.

use vstd::prelude::*;
use vstd::string::StringExecFns;

verus! {

/// The platforms the opener distinguishes. Every identifier outside the
/// three supported ones maps to `Other`.
#[derive(Clone, Copy, Debug, PartialEq, Eq, Structural)]
pub enum Platform {
    Windows,
    MacOs,
    Linux,
    Other,
}

/// The platform an OS identifier (as the standard library reports it,
/// e.g. `"linux"`) names.
pub open spec fn platform_of_os_spec(os: Seq<char>) -> Platform {
    if os == "windows"@ {
        Platform::Windows
    } else if os == "macos"@ {
        Platform::MacOs
    } else if os == "linux"@ {
        Platform::Linux
    } else {
        Platform::Other
    }
}

/// The program that opens a file on the given platform.
pub open spec fn open_program_spec(platform: Platform) -> Seq<char> {
    match platform {
        Platform::Windows => "cmd"@,
        Platform::MacOs => "open"@,
        Platform::Linux => "xdg-open"@,
        Platform::Other => ""@,
    }
}

/// The arguments handed to that program for the given file path. Windows
/// goes through the shell interpreter's `start` action (with an empty
/// quoted title, so the path is not mistaken for one); the other two hand
/// the path to the opener directly.
pub open spec fn open_args_spec(platform: Platform, path: Seq<char>) -> Seq<Seq<char>> {
    match platform {
        Platform::Windows => seq!["/c"@, "start"@, "\"\""@, path],
        Platform::MacOs => seq![path],
        Platform::Linux => seq![path],
        Platform::Other => Seq::empty(),
    }
}

impl Platform {
    /// The platform an OS identifier names.
    pub fn from_os(os: &str) -> (p: Platform)
        ensures
            p == platform_of_os_spec(os@),
    {
        let s = os.to_owned();
        if s == String::from_str("windows") {
            Platform::Windows
        } else if s == String::from_str("macos") {
            Platform::MacOs
        } else if s == String::from_str("linux") {
            Platform::Linux
        } else {
            Platform::Other
        }
    }
}

/// A process invocation that opens a file: the program and its arguments.
/// The spawned process is detached; launching it is all that is asked.
#[derive(Debug)]
pub struct OpenCommand {
    pub program: String,
    pub args: Vec<String>,
}

/// The command that opens `file_path` on `platform`, or `None` on an
/// unsupported platform — opening is then a silent no-op, not an error.
pub fn open_command(platform: Platform, file_path: &str) -> (r: Option<OpenCommand>)
    ensures
        (r is Some) <==> platform != Platform::Other,
        r is Some ==> r.unwrap().program@ == open_program_spec(platform),
        r is Some ==> r.unwrap().args.deep_view() == open_args_spec(platform, file_path@),
{
    match platform {
        Platform::Windows => {
            let mut args: Vec<String> = Vec::new();
            args.push(String::from_str("/c"));
            args.push(String::from_str("start"));
            args.push(String::from_str("\"\""));
            args.push(file_path.to_owned());
            proof {
                assert(args.deep_view() =~= open_args_spec(platform, file_path@));
            }
            Some(OpenCommand { program: String::from_str("cmd"), args: args })
        },
        Platform::MacOs => {
            let mut args: Vec<String> = Vec::new();
            args.push(file_path.to_owned());
            proof {
                assert(args.deep_view() =~= open_args_spec(platform, file_path@));
            }
            Some(OpenCommand { program: String::from_str("open"), args: args })
        },
        Platform::Linux => {
            let mut args: Vec<String> = Vec::new();
            args.push(file_path.to_owned());
            proof {
                assert(args.deep_view() =~= open_args_spec(platform, file_path@));
            }
            Some(OpenCommand { program: String::from_str("xdg-open"), args: args })
        },
        Platform::Other => None,
    }
}

/// The platform query is referentially stable: any two results the query's
/// contract admits for the same OS identifier are equal.
pub proof fn lemma_platform_query_stable(os: Seq<char>, a: Platform, b: Platform)
    requires
        a == platform_of_os_spec(os),
        b == platform_of_os_spec(os),
    ensures
        a == b,
{
}

/// Every OS identifier maps into the fixed finite set of platforms.
pub proof fn lemma_platform_finite(os: Seq<char>)
    ensures
        platform_of_os_spec(os) == Platform::Windows || platform_of_os_spec(os) == Platform::MacOs
            || platform_of_os_spec(os) == Platform::Linux || platform_of_os_spec(os)
            == Platform::Other,
{
}

} // verus!

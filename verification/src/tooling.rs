//! The operations on the tools of the host: looking them up, running a
//! command through the shell, and telling how to install what is missing.

use crate::platform::{interpreter_name, path_lookup_name, shell_flag, shell_name, Platform};
use crate::process::{Invocation, InvocationView};
use vstd::prelude::*;

verus! {

/// How `check_openclaw_installed` looks the tool up in the search path.
pub open spec fn check_openclaw_installed_plan(platform: Platform) -> InvocationView {
    InvocationView { program: path_lookup_name(platform), args: seq!["openclaw"@] }
}

/// How `check_python_available` asks the interpreter for its version.
pub open spec fn check_python_available_plan(platform: Platform) -> InvocationView {
    InvocationView { program: interpreter_name(platform), args: seq!["--version"@] }
}

/// How `run_openclaw_command` hands `command` to the shell, as it stands.
pub open spec fn run_openclaw_command_plan(platform: Platform, command: Seq<char>) -> InvocationView {
    InvocationView { program: shell_name(platform), args: seq![shell_flag(platform), command] }
}

/// How to install the tool on Windows.
pub const INSTALL_ON_WINDOWS: &'static str =
    "To install OpenClaw on Windows:\n1. Download from: https://github.com/openclaw/openclaw\n2. Run: npm install -g openclaw\n3. Or follow installation instructions in the repository";

/// How to install the tool on macOS.
pub const INSTALL_ON_MACOS: &'static str =
    "To install OpenClaw on macOS:\n1. Run: brew install openclaw\n2. Or: npm install -g openclaw";

/// How to install the tool on Linux.
pub const INSTALL_ON_LINUX: &'static str =
    "To install OpenClaw on Linux:\n1. Run: npm install -g openclaw\n2. Or follow installation instructions";

/// How to install the tool on each platform.
pub open spec fn install_instructions(platform: Platform) -> Seq<char> {
    match platform {
        Platform::Windows => INSTALL_ON_WINDOWS@,
        Platform::MacOs => INSTALL_ON_MACOS@,
        Platform::Linux => INSTALL_ON_LINUX@,
    }
}

/// Plans the lookup of the tool in the search path.
pub fn check_openclaw_installed(platform: Platform) -> (plan: Invocation)
    ensures
        plan@ == check_openclaw_installed_plan(platform),
{
    let mut args: Vec<String> = Vec::new();
    args.push("openclaw".to_owned());
    assert(args.deep_view() =~= seq!["openclaw"@]);
    Invocation { program: platform.path_lookup(), args }
}

/// Plans the question for the interpreter's version.
pub fn check_python_available(platform: Platform) -> (plan: Invocation)
    ensures
        plan@ == check_python_available_plan(platform),
{
    let mut args: Vec<String> = Vec::new();
    args.push("--version".to_owned());
    assert(args.deep_view() =~= seq!["--version"@]);
    Invocation { program: platform.interpreter(), args }
}

/// Plans the run of `command` by the shell. The command is handed on as it
/// stands: whoever calls this decides what the shell will run.
pub fn run_openclaw_command(platform: Platform, command: String) -> (plan: Invocation)
    ensures
        plan@ == run_openclaw_command_plan(platform, command@),
{
    let shell = platform.shell();
    let mut args: Vec<String> = Vec::new();
    args.push(shell.1);
    args.push(command);
    assert(args.deep_view() =~= seq![shell_flag(platform), command@]);
    Invocation { program: shell.0, args }
}

/// Tells how to install the tool on `platform`.
pub fn install_openclaw(platform: Platform) -> (text: String)
    ensures
        text@ == install_instructions(platform),
{
    match platform {
        Platform::Windows => INSTALL_ON_WINDOWS.to_owned(),
        Platform::MacOs => INSTALL_ON_MACOS.to_owned(),
        Platform::Linux => INSTALL_ON_LINUX.to_owned(),
    }
}

} // verus!

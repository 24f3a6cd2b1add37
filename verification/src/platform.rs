//! The operating-system families that the gateway tells apart, and the
//! programs that each of them offers.

use vstd::prelude::*;

verus! {

/// Operating-system family of the host. `Linux` stands for every host that
/// is neither Windows nor macOS.
#[derive(Clone, Copy, Debug, PartialEq, Eq, Structural)]
pub enum Platform {
    Windows,
    MacOs,
    Linux,
}

/// The program that finds a tool in the search path.
pub open spec fn path_lookup_name(platform: Platform) -> Seq<char> {
    if platform == Platform::Windows {
        "where"@
    } else {
        "which"@
    }
}

/// The name under which the Python interpreter is installed.
pub open spec fn interpreter_name(platform: Platform) -> Seq<char> {
    if platform == Platform::Windows {
        "python"@
    } else {
        "python3"@
    }
}

/// The command interpreter of the platform.
pub open spec fn shell_name(platform: Platform) -> Seq<char> {
    if platform == Platform::Windows {
        "cmd"@
    } else {
        "sh"@
    }
}

/// The flag that makes the command interpreter run its next argument.
pub open spec fn shell_flag(platform: Platform) -> Seq<char> {
    if platform == Platform::Windows {
        "/C"@
    } else {
        "-c"@
    }
}

impl Platform {
    /// The program that finds a tool in the search path.
    pub fn path_lookup(self) -> (name: String)
        ensures
            name@ == path_lookup_name(self),
    {
        match self {
            Platform::Windows => "where".to_owned(),
            _ => "which".to_owned(),
        }
    }

    /// The name under which the Python interpreter is installed.
    pub fn interpreter(self) -> (name: String)
        ensures
            name@ == interpreter_name(self),
    {
        match self {
            Platform::Windows => "python".to_owned(),
            _ => "python3".to_owned(),
        }
    }

    /// The command interpreter and the flag that makes it run its next argument.
    pub fn shell(self) -> (shell: (String, String))
        ensures
            shell.0@ == shell_name(self),
            shell.1@ == shell_flag(self),
    {
        match self {
            Platform::Windows => ("cmd".to_owned(), "/C".to_owned()),
            _ => ("sh".to_owned(), "-c".to_owned()),
        }
    }
}

} // verus!

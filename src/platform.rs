//! The host systems the tool knows, and what differs between them: the
//! shell, the command that finds a program on PATH, the path separators, and
//! the platform's own steps.
use vstd::prelude::*;
use vstd::string::*;
use crate::text::same_text;

verus! {

/// The host operating system, as far as the tool tells them apart.
#[derive(Clone, Copy, Debug, PartialEq, Eq, Structural)]
pub enum Platform {
    Windows,
    MacOs,
    Linux,
    Other,
}

/// The platform that an operating system name (as `std::env::consts::OS`
/// spells it) stands for.
pub open spec fn platform_named(name: Seq<char>) -> Platform {
    if name == "windows"@ {
        Platform::Windows
    } else if name == "macos"@ {
        Platform::MacOs
    } else if name == "linux"@ {
        Platform::Linux
    } else {
        Platform::Other
    }
}

/// The shell program and the flag that hands it a command line.
pub open spec fn shell_of(p: Platform) -> Option<(Seq<char>, Seq<char>)> {
    match p {
        Platform::Windows => Some(("cmd"@, "/C"@)),
        Platform::MacOs | Platform::Linux => Some(("sh"@, "-c"@)),
        Platform::Other => None,
    }
}

/// The command line that prints where `program` stands on PATH.
pub open spec fn locate_line(p: Platform, program: Seq<char>) -> Option<Seq<char>> {
    match p {
        Platform::Windows => Some("where "@ + program),
        Platform::MacOs | Platform::Linux => Some("which "@ + program),
        Platform::Other => None,
    }
}

/// The command line, run in the SDK root, that removes the build file which
/// breaks the 3.29.0 release.
pub open spec fn gn_removal_line(p: Platform) -> Option<Seq<char>> {
    match p {
        Platform::Windows => Some("del .\\engine\\src\\.gn"@),
        Platform::MacOs | Platform::Linux => Some("rm -rf ./engine/src/.gn"@),
        Platform::Other => None,
    }
}

impl Platform {
    /// The platform of an operating system name.
    pub fn from_os_name(name: &str) -> (r: Platform)
        ensures
            r == platform_named(name@),
    {
        if same_text(name, "windows") {
            Platform::Windows
        } else if same_text(name, "macos") {
            Platform::MacOs
        } else if same_text(name, "linux") {
            Platform::Linux
        } else {
            Platform::Other
        }
    }

    /// Whether commands can be run at all on this platform.
    pub open spec fn supported(self) -> bool {
        !(self is Other)
    }

    pub fn is_supported(&self) -> (r: bool)
        ensures
            r == self.supported(),
    {
        !matches!(self, Platform::Other)
    }

    /// The shell program and the flag that hands it a command line; none
    /// where the platform is not supported.
    pub fn shell(&self) -> (r: Option<(String, String)>)
        ensures
            match r {
                Some((prog, flag)) => shell_of(*self) == Some((prog@, flag@)),
                None => shell_of(*self).is_none(),
            },
    {
        match self {
            Platform::Windows => Some((String::from_str("cmd"), String::from_str("/C"))),
            Platform::MacOs | Platform::Linux => Some((String::from_str("sh"), String::from_str("-c"))),
            Platform::Other => None,
        }
    }

    /// The command line that finds `program` on PATH.
    pub fn locate_command(&self, program: &str) -> (r: Option<String>)
        ensures
            match r {
                Some(line) => locate_line(*self, program@) == Some(line@),
                None => locate_line(*self, program@).is_none(),
            },
    {
        match self {
            Platform::Windows => Some(String::from_str("where ").concat(program)),
            Platform::MacOs | Platform::Linux => Some(String::from_str("which ").concat(program)),
            Platform::Other => None,
        }
    }

    /// Whether `\` separates the parts of a path, besides `/`.
    pub open spec fn backslash_paths(self) -> bool {
        self is Windows
    }

    pub fn uses_backslash(&self) -> (r: bool)
        ensures
            r == self.backslash_paths(),
    {
        matches!(self, Platform::Windows)
    }

    /// Whether native dependencies are installed with CocoaPods here.
    pub open spec fn installs_pods(self) -> bool {
        self is MacOs
    }

    pub fn needs_pod_install(&self) -> (r: bool)
        ensures
            r == self.installs_pods(),
    {
        matches!(self, Platform::MacOs)
    }

    /// The command line that removes the faulty build file of the 3.29.0
    /// release.
    pub fn gn_removal_command(&self) -> (r: Option<String>)
        ensures
            match r {
                Some(line) => gn_removal_line(*self) == Some(line@),
                None => gn_removal_line(*self).is_none(),
            },
    {
        match self {
            Platform::Windows => Some(String::from_str("del .\\engine\\src\\.gn")),
            Platform::MacOs | Platform::Linux => Some(String::from_str("rm -rf ./engine/src/.gn")),
            Platform::Other => None,
        }
    }
}

} // verus!

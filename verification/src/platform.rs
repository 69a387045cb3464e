use vstd::prelude::*;

use crate::text::str_eq;

verus! {

/// The operating system a peer runs on.
#[derive(Debug, Clone, Copy, PartialEq, Eq, Structural)]
pub enum Platform {
    Unknown,
    Windows,
    MacOS,
    Linux,
}

pub open spec fn platform_byte(p: Platform) -> u8 {
    match p {
        Platform::Unknown => 0,
        Platform::Windows => 1,
        Platform::MacOS => 2,
        Platform::Linux => 3,
    }
}

pub open spec fn platform_from_byte(value: u8) -> Platform {
    if value == 1 {
        Platform::Windows
    } else if value == 2 {
        Platform::MacOS
    } else if value == 3 {
        Platform::Linux
    } else {
        Platform::Unknown
    }
}

pub open spec fn platform_name(p: Platform) -> Seq<char> {
    match p {
        Platform::Windows => "windows"@,
        Platform::MacOS => "macos"@,
        Platform::Linux => "linux"@,
        Platform::Unknown => "unknown"@,
    }
}

/// The platform a build targets, by the name Rust gives its target OS.
pub open spec fn platform_from_os_name(name: Seq<char>) -> Platform {
    if name == "windows"@ {
        Platform::Windows
    } else if name == "macos"@ {
        Platform::MacOS
    } else if name == "linux"@ {
        Platform::Linux
    } else {
        Platform::Unknown
    }
}

impl Platform {
    /// The platform named by a target OS name ("windows", "macos", "linux");
    /// any other name is `Unknown`.
    pub fn from_os_name(name: &str) -> (r: Platform)
        ensures
            r == platform_from_os_name(name@),
    {
        if str_eq(name, "windows") {
            Platform::Windows
        } else if str_eq(name, "macos") {
            Platform::MacOS
        } else if str_eq(name, "linux") {
            Platform::Linux
        } else {
            Platform::Unknown
        }
    }

    pub fn from_byte(value: u8) -> (r: Platform)
        ensures
            r == platform_from_byte(value),
    {
        match value {
            1 => Platform::Windows,
            2 => Platform::MacOS,
            3 => Platform::Linux,
            _ => Platform::Unknown,
        }
    }

    pub fn as_byte(self) -> (r: u8)
        ensures
            r == platform_byte(self),
    {
        match self {
            Platform::Unknown => 0,
            Platform::Windows => 1,
            Platform::MacOS => 2,
            Platform::Linux => 3,
        }
    }

    pub fn as_str(self) -> (r: &'static str)
        ensures
            r@ == platform_name(self),
    {
        match self {
            Platform::Windows => "windows",
            Platform::MacOS => "macos",
            Platform::Linux => "linux",
            Platform::Unknown => "unknown",
        }
    }
}

/// The pair of platforms on the two ends of a connection, server first.
#[derive(Debug, Clone, Copy, PartialEq, Eq, Structural)]
pub enum ConnectionProfile {
    WindowsToWindows,
    WindowsToMacOS,
    WindowsToLinux,
    MacOSToWindows,
    MacOSToMacOS,
    MacOSToLinux,
    LinuxToWindows,
    LinuxToMacOS,
    LinuxToLinux,
    Unknown,
}

pub open spec fn spec_profile(server: Platform, client: Platform) -> ConnectionProfile {
    match (server, client) {
        (Platform::Windows, Platform::Windows) => ConnectionProfile::WindowsToWindows,
        (Platform::Windows, Platform::MacOS) => ConnectionProfile::WindowsToMacOS,
        (Platform::Windows, Platform::Linux) => ConnectionProfile::WindowsToLinux,
        (Platform::MacOS, Platform::Windows) => ConnectionProfile::MacOSToWindows,
        (Platform::MacOS, Platform::MacOS) => ConnectionProfile::MacOSToMacOS,
        (Platform::MacOS, Platform::Linux) => ConnectionProfile::MacOSToLinux,
        (Platform::Linux, Platform::Windows) => ConnectionProfile::LinuxToWindows,
        (Platform::Linux, Platform::MacOS) => ConnectionProfile::LinuxToMacOS,
        (Platform::Linux, Platform::Linux) => ConnectionProfile::LinuxToLinux,
        _ => ConnectionProfile::Unknown,
    }
}

pub open spec fn profile_name(p: ConnectionProfile) -> Seq<char> {
    match p {
        ConnectionProfile::WindowsToWindows => "windows-to-windows"@,
        ConnectionProfile::WindowsToMacOS => "windows-to-macos"@,
        ConnectionProfile::WindowsToLinux => "windows-to-linux"@,
        ConnectionProfile::MacOSToWindows => "macos-to-windows"@,
        ConnectionProfile::MacOSToMacOS => "macos-to-macos"@,
        ConnectionProfile::MacOSToLinux => "macos-to-linux"@,
        ConnectionProfile::LinuxToWindows => "linux-to-windows"@,
        ConnectionProfile::LinuxToMacOS => "linux-to-macos"@,
        ConnectionProfile::LinuxToLinux => "linux-to-linux"@,
        ConnectionProfile::Unknown => "unknown"@,
    }
}

pub open spec fn spec_is_same_platform(p: ConnectionProfile) -> bool {
    p == ConnectionProfile::WindowsToWindows || p == ConnectionProfile::MacOSToMacOS || p
        == ConnectionProfile::LinuxToLinux
}

impl ConnectionProfile {
    pub fn new(server: Platform, client: Platform) -> (r: ConnectionProfile)
        ensures
            r == spec_profile(server, client),
    {
        match (server, client) {
            (Platform::Windows, Platform::Windows) => ConnectionProfile::WindowsToWindows,
            (Platform::Windows, Platform::MacOS) => ConnectionProfile::WindowsToMacOS,
            (Platform::Windows, Platform::Linux) => ConnectionProfile::WindowsToLinux,
            (Platform::MacOS, Platform::Windows) => ConnectionProfile::MacOSToWindows,
            (Platform::MacOS, Platform::MacOS) => ConnectionProfile::MacOSToMacOS,
            (Platform::MacOS, Platform::Linux) => ConnectionProfile::MacOSToLinux,
            (Platform::Linux, Platform::Windows) => ConnectionProfile::LinuxToWindows,
            (Platform::Linux, Platform::MacOS) => ConnectionProfile::LinuxToMacOS,
            (Platform::Linux, Platform::Linux) => ConnectionProfile::LinuxToLinux,
            _ => ConnectionProfile::Unknown,
        }
    }

    /// The profile seen by a client running on `local` and talking to `server`.
    pub fn local_client(server: Platform, local: Platform) -> (r: ConnectionProfile)
        ensures
            r == spec_profile(server, local),
    {
        ConnectionProfile::new(server, local)
    }

    /// The profile seen by a server running on `local` and serving `client`.
    pub fn local_server(client: Platform, local: Platform) -> (r: ConnectionProfile)
        ensures
            r == spec_profile(local, client),
    {
        ConnectionProfile::new(local, client)
    }

    pub fn as_str(self) -> (r: &'static str)
        ensures
            r@ == profile_name(self),
    {
        match self {
            ConnectionProfile::WindowsToWindows => "windows-to-windows",
            ConnectionProfile::WindowsToMacOS => "windows-to-macos",
            ConnectionProfile::WindowsToLinux => "windows-to-linux",
            ConnectionProfile::MacOSToWindows => "macos-to-windows",
            ConnectionProfile::MacOSToMacOS => "macos-to-macos",
            ConnectionProfile::MacOSToLinux => "macos-to-linux",
            ConnectionProfile::LinuxToWindows => "linux-to-windows",
            ConnectionProfile::LinuxToMacOS => "linux-to-macos",
            ConnectionProfile::LinuxToLinux => "linux-to-linux",
            ConnectionProfile::Unknown => "unknown",
        }
    }

    pub fn is_same_platform(self) -> (r: bool)
        ensures
            r == spec_is_same_platform(self),
    {
        match self {
            ConnectionProfile::WindowsToWindows | ConnectionProfile::MacOSToMacOS
            | ConnectionProfile::LinuxToLinux => true,
            _ => false,
        }
    }
}

/// A platform's byte names it again.
pub proof fn law_platform_byte_roundtrip(p: Platform)
    ensures
        platform_from_byte(platform_byte(p)) == p,
{
}

/// A profile joins two platforms of the same known kind exactly when both
/// ends are that platform.
pub proof fn law_same_platform_profile(server: Platform, client: Platform)
    ensures
        spec_is_same_platform(spec_profile(server, client)) <==> (server == client && server
            != Platform::Unknown),
        spec_profile(server, client) == ConnectionProfile::Unknown <==> (server
            == Platform::Unknown || client == Platform::Unknown),
{
}

} // verus!

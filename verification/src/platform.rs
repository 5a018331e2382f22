//! The platforms the application is published for, and the names that
//! depend on the platform.

use vstd::prelude::*;

verus! {

/// A platform for which release assets are published.
#[derive(Clone, Copy, Debug, PartialEq, Eq, Structural)]
pub enum Platform {
    Windows,
    MacArm,
    MacIntel,
    Linux,
}

impl Platform {
    /// The text every asset name for this platform begins with.
    pub open spec fn asset_prefix_text(self) -> Seq<char> {
        match self {
            Platform::Windows => "westward-windows"@,
            Platform::MacArm => "westward-macos-a"@,
            Platform::MacIntel => "westward-macos-i"@,
            Platform::Linux => "westward-linux"@,
        }
    }

    /// The file name under which the application binary is installed.
    pub open spec fn binary_name_text(self) -> Seq<char> {
        match self {
            Platform::Windows => "westward.exe"@,
            _ => "westward"@,
        }
    }

    /// The command that starts the installed binary from the working directory.
    pub open spec fn launch_command_text(self) -> Seq<char> {
        match self {
            Platform::Windows => "westward.exe"@,
            _ => "./westward"@,
        }
    }

    /// Returns the prefix by which assets of this platform are recognised.
    pub fn asset_prefix(self) -> (prefix: &'static str)
        ensures
            prefix@ == self.asset_prefix_text(),
    {
        match self {
            Platform::Windows => "westward-windows",
            Platform::MacArm => "westward-macos-a",
            Platform::MacIntel => "westward-macos-i",
            Platform::Linux => "westward-linux",
        }
    }

    /// Returns the path, relative to the working directory, that a download
    /// is written to.
    pub fn binary_name(self) -> (name: &'static str)
        ensures
            name@ == self.binary_name_text(),
    {
        match self {
            Platform::Windows => "westward.exe",
            _ => "westward",
        }
    }

    /// Returns the command that launches the installed binary.
    pub fn launch_command(self) -> (command: &'static str)
        ensures
            command@ == self.launch_command_text(),
    {
        match self {
            Platform::Windows => "westward.exe",
            _ => "./westward",
        }
    }
}

} // verus!

//! The platforms that Microsoft Edge WebDriver is published for.

use vstd::prelude::*;
use vstd::string::StringExecFns;

use crate::error::Error;
use crate::error::ErrorView;
use crate::text::same_text;

verus! {

/// An operating system and architecture that a driver is published for.
#[derive(Clone, Copy, Debug, PartialEq, Eq, Structural)]
pub enum Platform {
    /// Windows on x86_64.
    Win64,
    /// Windows on aarch64.
    Arm64,
    /// Windows on x86.
    Win32,
    /// macOS on x86_64.
    Mac64,
    /// macOS on aarch64.
    Mac64M1,
    /// Linux on x86_64.
    Linux64,
}

/// The platform of an operating system and an architecture, each named as
/// `std::env::consts` names it, if a driver is published for the pair.
pub open spec fn platform_of(os: Seq<char>, arch: Seq<char>) -> Option<Platform> {
    if os == "windows"@ && arch == "x86_64"@ {
        Some(Platform::Win64)
    } else if os == "windows"@ && arch == "aarch64"@ {
        Some(Platform::Arm64)
    } else if os == "windows"@ && arch == "x86"@ {
        Some(Platform::Win32)
    } else if os == "macos"@ && arch == "x86_64"@ {
        Some(Platform::Mac64)
    } else if os == "macos"@ && arch == "aarch64"@ {
        Some(Platform::Mac64M1)
    } else if os == "linux"@ && arch == "x86_64"@ {
        Some(Platform::Linux64)
    } else {
        None
    }
}

impl Platform {
    /// The label that stands for this platform in download addresses.
    pub open spec fn label_text(self) -> Seq<char> {
        match self {
            Platform::Win64 => "win64"@,
            Platform::Arm64 => "arm64"@,
            Platform::Win32 => "win32"@,
            Platform::Mac64 => "mac64"@,
            Platform::Mac64M1 => "mac64_m1"@,
            Platform::Linux64 => "linux64"@,
        }
    }

    /// Whether this platform belongs to the Windows family.
    pub open spec fn on_windows(self) -> bool {
        self == Platform::Win64 || self == Platform::Arm64 || self == Platform::Win32
    }

    /// The name of the driver inside the archive published for this platform.
    pub open spec fn member_text(self) -> Seq<char> {
        if self.on_windows() {
            "msedgedriver.exe"@
        } else {
            "msedgedriver"@
        }
    }

    /// The platform of the running process, from its operating system and its
    /// architecture as `std::env::consts` names them. Fails with
    /// `UnsupportedPlatform`, which carries both names, for every pair but the six
    /// that a driver is published for.
    pub fn current(os: &str, arch: &str) -> (found: Result<Platform, Error>)
        ensures
            match platform_of(os@, arch@) {
                Some(platform) => found == Ok::<Platform, Error>(platform),
                None => found matches Err(e) && e@ == (ErrorView::UnsupportedPlatform {
                    os: os@,
                    arch: arch@,
                }),
            },
    {
        let windows = same_text(os, "windows");
        let macos = same_text(os, "macos");
        let linux = same_text(os, "linux");
        let x86_64 = same_text(arch, "x86_64");
        let aarch64 = same_text(arch, "aarch64");
        let x86 = same_text(arch, "x86");
        if windows && x86_64 {
            Ok(Platform::Win64)
        } else if windows && aarch64 {
            Ok(Platform::Arm64)
        } else if windows && x86 {
            Ok(Platform::Win32)
        } else if macos && x86_64 {
            Ok(Platform::Mac64)
        } else if macos && aarch64 {
            Ok(Platform::Mac64M1)
        } else if linux && x86_64 {
            Ok(Platform::Linux64)
        } else {
            Err(Error::UnsupportedPlatform { os: String::from_str(os), arch: String::from_str(arch) })
        }
    }

    /// The label that stands for this platform in download addresses.
    pub fn label(&self) -> (label: &'static str)
        ensures
            label@ == self.label_text(),
    {
        match self {
            Platform::Win64 => "win64",
            Platform::Arm64 => "arm64",
            Platform::Win32 => "win32",
            Platform::Mac64 => "mac64",
            Platform::Mac64M1 => "mac64_m1",
            Platform::Linux64 => "linux64",
        }
    }

    /// Whether this platform belongs to the Windows family.
    pub fn is_windows(&self) -> (windows: bool)
        ensures
            windows == self.on_windows(),
    {
        match self {
            Platform::Win64 => true,
            Platform::Arm64 => true,
            Platform::Win32 => true,
            Platform::Mac64 => false,
            Platform::Mac64M1 => false,
            Platform::Linux64 => false,
        }
    }

    /// Whether this platform is 64-bit Windows on x86_64.
    pub fn is_win64(&self) -> (win64: bool)
        ensures
            win64 == (*self == Platform::Win64),
    {
        match self {
            Platform::Win64 => true,
            _ => false,
        }
    }

    /// The name of the driver inside the archive published for this platform:
    /// `msedgedriver.exe` on Windows, `msedgedriver` elsewhere.
    pub fn member_name(&self) -> (name: &'static str)
        ensures
            name@ == self.member_text(),
    {
        if self.is_windows() {
            "msedgedriver.exe"
        } else {
            "msedgedriver"
        }
    }
}

} // verus!

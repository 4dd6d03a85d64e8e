//! Where in the registry a WebView2 runtime records its version, and the command
//! that reads it.

use vstd::prelude::*;
use vstd::string::StringExecFns;

verus! {

/// A place where a WebView2 runtime may be installed.
#[derive(Clone, Copy, Debug, PartialEq, Eq, Structural)]
pub enum Webview2Install {
    /// For every user, 64-bit.
    Global64,
    /// For every user, 32-bit.
    Global32,
    /// For the current user, 64-bit.
    User64,
    /// For the current user, 32-bit.
    User32,
}

/// The install locations in the order in which they are asked.
pub open spec fn preference() -> Seq<Webview2Install> {
    seq![
        Webview2Install::Global64,
        Webview2Install::Global32,
        Webview2Install::User64,
        Webview2Install::User32,
    ]
}

/// The key under which the runtime records itself, below each location's root.
pub open spec fn client_key() -> Seq<char> {
    "Microsoft\\EdgeUpdate\\Clients\\{F3017226-FE2A-4295-8BDF-00C3A9A7E4C5}"@
}

impl Webview2Install {
    /// The registry root of this location.
    pub open spec fn root_text(self) -> Seq<char> {
        match self {
            Webview2Install::Global64 => "HKLM:\\SOFTWARE\\WOW6432Node\\"@,
            Webview2Install::Global32 => "HKLM:\\SOFTWARE\\"@,
            Webview2Install::User64 => "HKCU:\\SOFTWARE\\WOW6432Node\\"@,
            Webview2Install::User32 => "HKCU:\\SOFTWARE\\"@,
        }
    }

    /// The registry path that is read for this location.
    pub open spec fn path_text(self) -> Seq<char> {
        self.root_text() + client_key()
    }

    /// The script that prints the version recorded at this location.
    pub open spec fn query_text(self) -> Seq<char> {
        "Get-ItemProperty -Path '"@ + self.path_text() + "' | ForEach-Object {$_.pv}"@
    }

    /// The location asked at position `index`, if there is one: four locations,
    /// machine-wide before user-wide and 64-bit before 32-bit.
    pub fn nth(index: usize) -> (install: Option<Webview2Install>)
        ensures
            index < preference().len() ==> install == Some(preference()[index as int]),
            index >= preference().len() ==> install.is_none(),
    {
        if index == 0 {
            Some(Webview2Install::Global64)
        } else if index == 1 {
            Some(Webview2Install::Global32)
        } else if index == 2 {
            Some(Webview2Install::User64)
        } else if index == 3 {
            Some(Webview2Install::User32)
        } else {
            None
        }
    }

    /// All locations, in the order in which they are asked.
    pub fn all() -> (installs: Vec<Webview2Install>)
        ensures
            installs@ == preference(),
    {
        let mut installs = Vec::new();
        installs.push(Webview2Install::Global64);
        installs.push(Webview2Install::Global32);
        installs.push(Webview2Install::User64);
        installs.push(Webview2Install::User32);
        assert(installs@ =~= preference());
        installs
    }

    /// The registry path that is read for this location.
    pub fn registry_path(&self) -> (path: String)
        ensures
            path@ == self.path_text(),
    {
        let root = match self {
            Webview2Install::Global64 => "HKLM:\\SOFTWARE\\WOW6432Node\\",
            Webview2Install::Global32 => "HKLM:\\SOFTWARE\\",
            Webview2Install::User64 => "HKCU:\\SOFTWARE\\WOW6432Node\\",
            Webview2Install::User32 => "HKCU:\\SOFTWARE\\",
        };
        String::from_str(root).concat(
            "Microsoft\\EdgeUpdate\\Clients\\{F3017226-FE2A-4295-8BDF-00C3A9A7E4C5}",
        )
    }

    /// The script that prints the version recorded at this location.
    pub fn query(&self) -> (script: String)
        ensures
            script@ == self.query_text(),
    {
        let path = self.registry_path();
        let mut script = String::from_str("Get-ItemProperty -Path '");
        script.append(path.as_str());
        script.append("' | ForEach-Object {$_.pv}");
        script
    }
}

/// A program and the arguments it is started with.
#[derive(Debug, PartialEq, Eq)]
pub struct LookupCommand {
    pub program: String,
    pub args: Vec<String>,
}

/// The command that prints the version recorded at `install`, or nothing, with a
/// failing exit status, where none is recorded.
pub fn lookup_command(install: Webview2Install) -> (command: LookupCommand)
    ensures
        command.program@ == "powershell"@,
        command.args.deep_view() == seq!["-NoProfile"@, "-Command"@, install.query_text()],
{
    let mut args: Vec<String> = Vec::new();
    args.push(String::from_str("-NoProfile"));
    args.push(String::from_str("-Command"));
    args.push(install.query());
    assert(args.deep_view() =~= seq!["-NoProfile"@, "-Command"@, install.query_text()]);
    LookupCommand { program: String::from_str("powershell"), args }
}

} // verus!

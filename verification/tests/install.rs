use msedgedriver_tool::install::lookup_command;
use msedgedriver_tool::install::Webview2Install;

#[test]
fn locations_are_asked_machine_wide_first() {
    assert_eq!(
        Webview2Install::all(),
        vec![
            Webview2Install::Global64,
            Webview2Install::Global32,
            Webview2Install::User64,
            Webview2Install::User32,
        ]
    );
    assert_eq!(Webview2Install::nth(0), Some(Webview2Install::Global64));
    assert_eq!(Webview2Install::nth(1), Some(Webview2Install::Global32));
    assert_eq!(Webview2Install::nth(2), Some(Webview2Install::User64));
    assert_eq!(Webview2Install::nth(3), Some(Webview2Install::User32));
    assert_eq!(Webview2Install::nth(4), None);
    assert_eq!(Webview2Install::nth(usize::MAX), None);
}

#[test]
fn registry_paths() {
    assert_eq!(
        Webview2Install::Global64.registry_path(),
        "HKLM:\\SOFTWARE\\WOW6432Node\\Microsoft\\EdgeUpdate\\Clients\\{F3017226-FE2A-4295-8BDF-00C3A9A7E4C5}"
    );
    assert_eq!(
        Webview2Install::Global32.registry_path(),
        "HKLM:\\SOFTWARE\\Microsoft\\EdgeUpdate\\Clients\\{F3017226-FE2A-4295-8BDF-00C3A9A7E4C5}"
    );
    assert_eq!(
        Webview2Install::User64.registry_path(),
        "HKCU:\\SOFTWARE\\WOW6432Node\\Microsoft\\EdgeUpdate\\Clients\\{F3017226-FE2A-4295-8BDF-00C3A9A7E4C5}"
    );
    assert_eq!(
        Webview2Install::User32.registry_path(),
        "HKCU:\\SOFTWARE\\Microsoft\\EdgeUpdate\\Clients\\{F3017226-FE2A-4295-8BDF-00C3A9A7E4C5}"
    );
}

#[test]
fn query_reads_the_version_property() {
    assert_eq!(
        Webview2Install::User32.query(),
        "Get-ItemProperty -Path 'HKCU:\\SOFTWARE\\Microsoft\\EdgeUpdate\\Clients\\{F3017226-FE2A-4295-8BDF-00C3A9A7E4C5}' | ForEach-Object {$_.pv}"
    );
}

#[test]
fn lookup_runs_powershell_without_a_profile() {
    for install in Webview2Install::all() {
        let command = lookup_command(install);
        assert_eq!(command.program, "powershell");
        assert_eq!(command.args, vec!["-NoProfile".to_string(), "-Command".to_string(), install.query()]);
    }
}

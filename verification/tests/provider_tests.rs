use starship_manager::provider::{
    combine_output, detect_provider, install_command, HostTools, InstallProvider,
};

fn host(is_windows: bool, is_unix: bool, has_winget: bool, has_brew: bool) -> HostTools {
    HostTools { is_windows, is_unix, has_winget, has_brew }
}

#[test]
fn detect_provider_returns_something_or_none() {
    // Just verify it doesn't panic, on every kind of host.
    for bits in 0u8..16 {
        let _provider = detect_provider(&host(bits & 1 != 0, bits & 2 != 0, bits & 4 != 0, bits & 8 != 0));
    }
}

#[test]
fn provider_display() {
    assert_eq!(InstallProvider::Brew.display_name(), "brew");
}

#[test]
fn provider_display_all() {
    assert_eq!(InstallProvider::Winget.display_name(), "winget");
    assert_eq!(InstallProvider::Script.display_name(), "install script");
}

#[test]
fn detect_prefers_winget_on_windows() {
    assert_eq!(detect_provider(&host(true, false, true, true)), Some(InstallProvider::Winget));
    assert_eq!(detect_provider(&host(true, false, false, true)), Some(InstallProvider::Brew));
    assert_eq!(detect_provider(&host(true, false, false, false)), None);
}

#[test]
fn detect_ignores_winget_off_windows() {
    assert_eq!(detect_provider(&host(false, true, true, false)), Some(InstallProvider::Script));
    assert_eq!(detect_provider(&host(false, true, false, true)), Some(InstallProvider::Brew));
    assert_eq!(detect_provider(&host(false, false, true, false)), None);
}

#[test]
fn install_commands() {
    let w = install_command(InstallProvider::Winget);
    assert_eq!(w.program, "winget");
    assert_eq!(w.context, "running winget");
    assert_eq!(
        w.args,
        vec![
            "install",
            "--id",
            "Starship.Starship",
            "--accept-source-agreements",
            "--accept-package-agreements"
        ]
    );
    let b = install_command(InstallProvider::Brew);
    assert_eq!(b.program, "brew");
    assert_eq!(b.context, "running brew install starship");
    assert_eq!(b.args, vec!["install", "starship"]);
    let s = install_command(InstallProvider::Script);
    assert_eq!(s.program, "sh");
    assert_eq!(s.context, "running install script");
    assert_eq!(s.args, vec!["-c", "curl -sS https://starship.rs/install.sh | sh -s -- --yes"]);
}

#[test]
fn combine_output_joins_streams() {
    assert_eq!(combine_output(b"done", b""), "done");
    assert_eq!(combine_output(b"done", b"warning"), "done\nwarning");
    assert_eq!(combine_output(b"", b"oops"), "\noops");
    assert_eq!(combine_output(&[0xff], b""), "\u{FFFD}");
}

use tray_shell::launcher::{launcher_invocation, open_external_result, Platform};

#[test]
fn windows_launcher_uses_shell_start_with_empty_title() {
    let inv = launcher_invocation(Platform::Windows, "https://example.com/a");
    assert_eq!(inv.program, "cmd");
    assert_eq!(
        inv.args,
        vec![
            "/C".to_string(),
            "start".to_string(),
            "".to_string(),
            "https://example.com/a".to_string(),
        ]
    );
}

#[test]
fn macos_launcher_uses_open() {
    let inv = launcher_invocation(Platform::MacOs, "https://example.com/b");
    assert_eq!(inv.program, "open");
    assert_eq!(inv.args, vec!["https://example.com/b".to_string()]);
}

#[test]
fn other_platforms_use_xdg_open() {
    let inv = launcher_invocation(Platform::Other, "https://example.com/c");
    assert_eq!(inv.program, "xdg-open");
    assert_eq!(inv.args, vec!["https://example.com/c".to_string()]);
}

#[test]
fn url_is_always_the_final_argument() {
    for platform in [Platform::Windows, Platform::MacOs, Platform::Other] {
        let inv = launcher_invocation(platform, "ftp://last");
        assert_eq!(inv.args.last().map(|s| s.as_str()), Some("ftp://last"));
    }
}

#[test]
fn empty_url_still_yields_an_invocation() {
    let inv = launcher_invocation(Platform::Other, "");
    assert_eq!(inv.program, "xdg-open");
    assert_eq!(inv.args, vec!["".to_string()]);
}

#[test]
fn malformed_url_is_passed_through_unvalidated() {
    let inv = launcher_invocation(Platform::Windows, "not a url :: at all");
    assert_eq!(inv.args[3], "not a url :: at all");
}

#[test]
fn successful_spawn_reports_success() {
    assert_eq!(open_external_result(None), Ok(()));
}

#[test]
fn failed_spawn_reports_prefixed_error() {
    let r = open_external_result(Some("No such file or directory (os error 2)".to_string()));
    assert_eq!(
        r,
        Err("Failed to open URL: No such file or directory (os error 2)".to_string())
    );
}

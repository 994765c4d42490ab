use cmdbridge::context::ExecutionContext;
use cmdbridge::locate::{locate, resolve_explicit, select_candidate, LocateError};

fn s(text: &str) -> String {
    text.to_string()
}

#[test]
fn explicit_extension_not_on_path_is_not_found() {
    match resolve_explicit("foo.xyz", None) {
        Err(LocateError::NotFound { command }) => assert_eq!(command, "foo.xyz"),
        other => panic!("expected NotFound, got {:?}", other),
    }
}

#[test]
fn explicit_native_extension_resolves_directly() {
    let resolved = resolve_explicit("tool.exe", Some(s("/mnt/c/bin/tool.exe"))).unwrap();
    assert_eq!(resolved.path, "/mnt/c/bin/tool.exe");
    assert!(!resolved.requires_shell_wrapper);
    assert!(!resolved.requires_stream_capture);
}

#[test]
fn explicit_wrapper_suffix_still_launches_directly() {
    // An explicit extension bypasses the extension search entirely, so the
    // restricted-context rules and the wrapper demands never apply to it.
    let resolved = resolve_explicit("run.bat", Some(s("/mnt/c/bin/run.bat"))).unwrap();
    assert!(!resolved.requires_shell_wrapper);
    assert!(!resolved.requires_stream_capture);
    let resolved = resolve_explicit("run.cmd", Some(s("/mnt/c/bin/run.cmd"))).unwrap();
    assert!(!resolved.requires_shell_wrapper);
    assert!(!resolved.requires_stream_capture);
}

#[test]
fn native_beats_wrapper_when_unrestricted() {
    let lookups = vec![
        Some(s("/mnt/c/bin/foo.exe")),
        Some(s("/mnt/c/bin/foo.bat")),
        Some(s("/mnt/c/bin/foo.cmd")),
    ];
    let resolved = select_candidate("foo", false, &lookups).unwrap();
    assert_eq!(resolved.path, "/mnt/c/bin/foo.exe");
    assert!(!resolved.requires_shell_wrapper);
    assert!(!resolved.requires_stream_capture);
}

#[test]
fn priority_order_decides_between_wrappers() {
    let lookups = vec![None, Some(s("/mnt/c/bin/foo.bat")), Some(s("/mnt/c/bin/foo.cmd"))];
    let resolved = select_candidate("foo", false, &lookups).unwrap();
    assert_eq!(resolved.path, "/mnt/c/bin/foo.bat");
    assert!(resolved.requires_shell_wrapper);
}

#[test]
fn restricted_wrapper_only_is_found_but_restricted() {
    let lookups = vec![None, Some(s("/srv/share/foo.bat")), None];
    match select_candidate("foo", true, &lookups) {
        Err(LocateError::FoundButRestricted { path }) => assert_eq!(path, "/srv/share/foo.bat"),
        Err(LocateError::NotFound { .. }) => panic!("reported NotFound for an existing candidate"),
        Ok(_) => panic!("resolved an incompatible candidate"),
    }
}

#[test]
fn restricted_remembers_last_incompatible_candidate() {
    let lookups = vec![None, Some(s("/srv/share/foo.bat")), Some(s("/srv/share/foo.cmd"))];
    match select_candidate("foo", true, &lookups) {
        Err(LocateError::FoundButRestricted { path }) => assert_eq!(path, "/srv/share/foo.cmd"),
        _ => panic!("expected FoundButRestricted"),
    }
}

#[test]
fn unrestricted_wrapper_only_succeeds_with_wrapper() {
    let lookups = vec![None, Some(s("/mnt/c/bin/foo.bat")), None];
    let resolved = select_candidate("foo", false, &lookups).unwrap();
    assert_eq!(resolved.path, "/mnt/c/bin/foo.bat");
    assert!(resolved.requires_shell_wrapper);
    assert!(resolved.requires_stream_capture);
}

#[test]
fn restricted_native_candidate_still_wins() {
    let lookups = vec![Some(s("/srv/share/foo.exe")), Some(s("/srv/share/foo.bat")), None];
    let resolved = select_candidate("foo", true, &lookups).unwrap();
    assert_eq!(resolved.path, "/srv/share/foo.exe");
    assert!(!resolved.requires_shell_wrapper);
}

#[test]
fn nothing_found_is_not_found() {
    let lookups = vec![None, None, None];
    match select_candidate("foo", false, &lookups) {
        Err(LocateError::NotFound { command }) => assert_eq!(command, "foo"),
        _ => panic!("expected NotFound"),
    }
}

#[test]
fn restricted_with_no_candidates_is_not_found() {
    let lookups = vec![None, None, None];
    match select_candidate("foo", true, &lookups) {
        Err(LocateError::NotFound { command }) => assert_eq!(command, "foo"),
        _ => panic!("expected NotFound"),
    }
}

#[test]
fn locating_a_nonexistent_command_reports_not_found() {
    let ctx = ExecutionContext { is_restricted: false };
    match locate("cmdbridge-no-such-command-anywhere", &ctx) {
        Err(LocateError::NotFound { command }) => {
            assert_eq!(command, "cmdbridge-no-such-command-anywhere")
        }
        other => panic!("expected NotFound, got {:?}", other),
    }
}

#[test]
fn locating_a_nonexistent_explicit_extension_reports_not_found() {
    let ctx = ExecutionContext { is_restricted: true };
    match locate("cmdbridge-no-such-command.xyz", &ctx) {
        Err(LocateError::NotFound { command }) => {
            assert_eq!(command, "cmdbridge-no-such-command.xyz")
        }
        other => panic!("expected NotFound, got {:?}", other),
    }
}

use cmdbridge::exit_status::exit_code_from_status;
use cmdbridge::locate::{select_candidate, LocateError};
use cmdbridge::plan::{build_command_line, ExecutionPlan};

fn s(text: &str) -> String {
    text.to_string()
}

#[test]
fn plan_projects_the_resolved_demands() {
    let lookups = vec![None, Some(s("/mnt/c/bin/foo.bat")), None];
    let resolved = select_candidate("foo", false, &lookups).unwrap();
    let plan = ExecutionPlan::select(&resolved);
    assert!(plan.use_shell_wrapper);
    assert!(plan.capture_streams);
}

#[test]
fn direct_launch_uses_resolved_path_and_verbatim_args() {
    let lookups = vec![Some(s("/mnt/c/bin/foo.exe")), None, None];
    let resolved = select_candidate("foo", false, &lookups).unwrap();
    let plan = ExecutionPlan::select(&resolved);
    assert!(!plan.use_shell_wrapper);
    let passthrough = vec![s("--flag"), s("value with spaces")];
    let line = build_command_line(&plan, &resolved, &None, &passthrough);
    assert_eq!(line.program, "/mnt/c/bin/foo.exe");
    assert_eq!(line.args, passthrough);
}

#[test]
fn shell_wrapper_launch_uses_translated_path() {
    let lookups = vec![None, Some(s("/mnt/c/bin/foo.bat")), None];
    let resolved = select_candidate("foo", false, &lookups).unwrap();
    let plan = ExecutionPlan::select(&resolved);
    let translated = Some(s("C:\\bin\\foo.bat"));
    let passthrough = vec![s("a"), s("b")];
    let line = build_command_line(&plan, &resolved, &translated, &passthrough);
    assert_eq!(line.program, "cmd.exe");
    assert_eq!(line.args, vec![s("/c"), s("C:\\bin\\foo.bat"), s("a"), s("b")]);
}

#[test]
fn shell_wrapper_launch_falls_back_to_untranslated_path() {
    let lookups = vec![None, None, Some(s("/mnt/c/bin/foo.cmd"))];
    let resolved = select_candidate("foo", false, &lookups).unwrap();
    let plan = ExecutionPlan::select(&resolved);
    let line = build_command_line(&plan, &resolved, &None, &Vec::new());
    assert_eq!(line.program, "cmd.exe");
    assert_eq!(line.args, vec![s("/c"), s("/mnt/c/bin/foo.cmd")]);
}

#[test]
fn reported_exit_codes_are_mirrored_exactly() {
    for k in [0, 1, 2, 42, 127, 255] {
        assert_eq!(exit_code_from_status(Some(k)), k as u8);
    }
}

#[test]
fn unreportable_exit_code_defaults_to_one() {
    assert_eq!(exit_code_from_status(None), 1);
}

#[test]
fn out_of_range_exit_codes_wrap_modulo_256() {
    assert_eq!(exit_code_from_status(Some(256)), 0);
    assert_eq!(exit_code_from_status(Some(257)), 1);
    assert_eq!(exit_code_from_status(Some(-1)), 255);
}

#[test]
fn native_candidate_launches_directly_and_mirrors_exit() {
    // `tool foo` where `foo.exe` exists on the search path in an
    // unrestricted context: launched directly, no shell wrapper, the
    // child's reported code becomes the bridge's own exit code.
    let lookups = vec![Some(s("/mnt/c/bin/foo.exe")), None, None];
    let resolved = select_candidate("foo", false, &lookups).unwrap();
    let plan = ExecutionPlan::select(&resolved);
    assert!(!plan.use_shell_wrapper);
    assert!(!plan.capture_streams);
    let line = build_command_line(&plan, &resolved, &None, &Vec::new());
    assert_eq!(line.program, "/mnt/c/bin/foo.exe");
    assert!(line.args.is_empty());
    assert_eq!(exit_code_from_status(Some(7)), 7);
}

#[test]
fn restricted_wrapper_scenario_fails_without_spawning() {
    // `tool foo` where only `foo.bat` exists and the context is restricted:
    // the resolution already fails with the found-but-restricted
    // diagnostic, so no launch plan is ever built.
    let lookups = vec![None, Some(s("/srv/share/foo.bat")), None];
    let err = select_candidate("foo", true, &lookups).unwrap_err();
    match &err {
        LocateError::FoundButRestricted { path } => assert_eq!(path, "/srv/share/foo.bat"),
        LocateError::NotFound { .. } => panic!("conflated with NotFound"),
    }
    assert_eq!(
        err.message(),
        "Error: Command '/srv/share/foo.bat' found but cannot be executed from UNC path (network drive). Use .exe files or run from a local drive."
    );
}

use vcvars::errors::VcvarsError;
use vcvars::resolver::{DecodeMode, EnsureOutcome, Request, Response, Vcvars};

const SEP: &str = "====================_unique_separator_by_rust_crate_that_utilizes_vcvars";

const DUMP: &str = "\
Some preamble the script prints\r\n\
====================_unique_separator_by_rust_crate_that_utilizes_vcvars \r\n\
VisualStudioVersion=17.8.3\r\n\
INCLUDE=C:\\VS\\include;C:\\Windows Kits\\include\r\n\
BADLINE\r\n\
Path=C:\\VS\\bin\r\n";

/// Drives the machine through the full sequence with simulated answers and
/// returns it with the map built from `dump`.
fn drive_to_built(dump: &str) -> Vcvars {
    let mut v = Vcvars::new();
    let outcome = v.ensure_env_map();
    assert!(matches!(outcome, EnsureOutcome::Pending(Request::Inputs)));

    let r = v
        .resume(Response::Inputs {
            program_files_x86: Some("C:\\Program Files (x86)".to_string()),
            win_dir: Some("C:\\Windows".to_string()),
            target_arch: Some("x86_64".to_string()),
            host_arch: "x86_64".to_string(),
        })
        .unwrap();
    let path = match r {
        EnsureOutcome::Pending(Request::IsFile(p)) => p,
        other => panic!("expected a file probe, got {other:?}"),
    };
    assert_eq!(
        path,
        "C:\\Program Files (x86)\\Microsoft Visual Studio\\Installer\\vswhere.exe"
    );

    let r = v.resume(Response::IsFile(true)).unwrap();
    let (program, args, decode) = match r {
        EnsureOutcome::Pending(Request::Run {
            program,
            args,
            decode,
        }) => (program, args, decode),
        other => panic!("expected a run request, got {other:?}"),
    };
    assert_eq!(
        program,
        "C:\\Program Files (x86)\\Microsoft Visual Studio\\Installer\\vswhere.exe"
    );
    assert_eq!(
        args,
        vec![
            "-prerelease".to_string(),
            "-latest".to_string(),
            "-property".to_string(),
            "installationPath".to_string(),
            "-utf8".to_string(),
        ]
    );
    assert_eq!(decode, DecodeMode::StrictUtf8);

    let r = v
        .resume(Response::Ran(Ok("C:\\VS\r\n".to_string())))
        .unwrap();
    let path = match r {
        EnsureOutcome::Pending(Request::IsFile(p)) => p,
        other => panic!("expected a file probe, got {other:?}"),
    };
    assert_eq!(path, "C:\\VS\\VC\\Auxiliary\\Build\\vcvarsall.bat");

    let r = v.resume(Response::IsFile(true)).unwrap();
    let (program, args, decode) = match r {
        EnsureOutcome::Pending(Request::Run {
            program,
            args,
            decode,
        }) => (program, args, decode),
        other => panic!("expected a run request, got {other:?}"),
    };
    assert_eq!(program, "C:\\Windows\\System32\\cmd.exe");
    assert_eq!(
        args,
        vec![
            "/C".to_string(),
            "C:\\VS\\VC\\Auxiliary\\Build\\vcvarsall.bat".to_string(),
            "x64".to_string(),
            "&&".to_string(),
            format!("echo.{SEP}"),
            "&&".to_string(),
            "set".to_string(),
        ]
    );
    assert_eq!(decode, DecodeMode::Lossy);

    let r = v.resume(Response::Ran(Ok(dump.to_string()))).unwrap();
    assert!(matches!(r, EnsureOutcome::Ready));
    assert!(v.is_built());
    v
}

#[test]
fn get() {
    let v = drive_to_built(DUMP);

    let value = v.get("VisualStudioVersion").unwrap();
    assert_eq!(value, "17.8.3");

    let value = v.get("INCLUDE").unwrap();
    assert_eq!(value, "C:\\VS\\include;C:\\Windows Kits\\include");

    // A second query must not start a second subprocess sequence: the
    // built resolver answers Ready without any pending request.
    let mut v = v;
    assert!(matches!(v.ensure_env_map(), EnsureOutcome::Ready));
    let value = v.get("Path").unwrap();
    assert_eq!(value, "C:\\VS\\bin");
}

#[test]
fn get_is_case_insensitive() {
    let v = drive_to_built(DUMP);
    for name in ["VisualStudioVersion", "INCLUDE", "Path"] {
        let as_is = v.get(name).unwrap();
        let upper = v.get(&name.to_uppercase()).unwrap();
        let lower = v.get(&name.to_lowercase()).unwrap();
        assert_eq!(as_is, upper);
        assert_eq!(as_is, lower);
    }
}

#[test]
fn get_absent_var_names_it_exactly() {
    let v = drive_to_built(DUMP);
    let err = v.get("No_Such_Variable").unwrap_err();
    match err {
        VcvarsError::VarNotFound(name) => assert_eq!(name, "No_Such_Variable"),
        other => panic!("expected VarNotFound, got {other:?}"),
    }
}

#[test]
fn bad_line_contributes_no_entry() {
    let v = drive_to_built(DUMP);
    let err = v.get("BADLINE").unwrap_err();
    assert!(matches!(err, VcvarsError::VarNotFound(_)));
}

#[test]
fn unsupported_arch_runs_no_process() {
    let mut v = Vcvars::new();
    assert!(matches!(
        v.ensure_env_map(),
        EnsureOutcome::Pending(Request::Inputs)
    ));
    let r = v
        .resume(Response::Inputs {
            program_files_x86: Some("C:\\Program Files (x86)".to_string()),
            win_dir: Some("C:\\Windows".to_string()),
            target_arch: Some("riscv64".to_string()),
            host_arch: "x86_64".to_string(),
        })
        .unwrap();
    // The file probe is no process invocation; the pair is rejected before
    // any run request can be issued.
    assert!(matches!(r, EnsureOutcome::Pending(Request::IsFile(_))));
    let err = v.resume(Response::IsFile(true)).unwrap_err();
    assert!(matches!(err, VcvarsError::UnsupportedArch));
    assert!(!v.is_built());
}

#[test]
fn missing_inputs_fail_in_order() {
    let mut v = Vcvars::new();
    v.ensure_env_map();
    let err = v
        .resume(Response::Inputs {
            program_files_x86: None,
            win_dir: None,
            target_arch: None,
            host_arch: "x86_64".to_string(),
        })
        .unwrap_err();
    match err {
        VcvarsError::MissingEnvVarDependency(name) => assert_eq!(name, "PROGRAMFILES(X86)"),
        other => panic!("expected MissingEnvVarDependency, got {other:?}"),
    }

    let mut v = Vcvars::new();
    v.ensure_env_map();
    let err = v
        .resume(Response::Inputs {
            program_files_x86: Some("C:\\Program Files (x86)".to_string()),
            win_dir: None,
            target_arch: None,
            host_arch: "x86_64".to_string(),
        })
        .unwrap_err();
    match err {
        VcvarsError::MissingEnvVarDependency(name) => assert_eq!(name, "WINDIR"),
        other => panic!("expected MissingEnvVarDependency, got {other:?}"),
    }

    let mut v = Vcvars::new();
    v.ensure_env_map();
    let err = v
        .resume(Response::Inputs {
            program_files_x86: Some("C:\\Program Files (x86)".to_string()),
            win_dir: Some("C:\\Windows".to_string()),
            target_arch: None,
            host_arch: "x86_64".to_string(),
        })
        .unwrap_err();
    match err {
        VcvarsError::MissingEnvVarDependency(name) => assert_eq!(name, "CARGO_CFG_TARGET_ARCH"),
        other => panic!("expected MissingEnvVarDependency, got {other:?}"),
    }
}

#[test]
fn absent_vswhere_is_file_not_found() {
    let mut v = Vcvars::new();
    v.ensure_env_map();
    v.resume(Response::Inputs {
        program_files_x86: Some("C:\\PF".to_string()),
        win_dir: Some("C:\\Windows".to_string()),
        target_arch: Some("x86_64".to_string()),
        host_arch: "x86_64".to_string(),
    })
    .unwrap();
    let err = v.resume(Response::IsFile(false)).unwrap_err();
    match err {
        VcvarsError::FileNotFound(path) => {
            assert_eq!(path, "C:\\PF\\Microsoft Visual Studio\\Installer\\vswhere.exe")
        }
        other => panic!("expected FileNotFound, got {other:?}"),
    }
}

#[test]
fn spawn_failure_is_couldnt_run() {
    let mut v = Vcvars::new();
    v.ensure_env_map();
    v.resume(Response::Inputs {
        program_files_x86: Some("C:\\PF".to_string()),
        win_dir: Some("C:\\Windows".to_string()),
        target_arch: Some("x86_64".to_string()),
        host_arch: "x86_64".to_string(),
    })
    .unwrap();
    v.resume(Response::IsFile(true)).unwrap();
    let err = v
        .resume(Response::Ran(Err("access denied".to_string())))
        .unwrap_err();
    match err {
        VcvarsError::CouldntRun(path, cause) => {
            assert_eq!(path, "C:\\PF\\Microsoft Visual Studio\\Installer\\vswhere.exe");
            assert_eq!(cause, "access denied");
        }
        other => panic!("expected CouldntRun, got {other:?}"),
    }
}

#[test]
fn error_marker_yields_vcvars_failed() {
    let mut v = Vcvars::new();
    v.ensure_env_map();
    v.resume(Response::Inputs {
        program_files_x86: Some("C:\\PF".to_string()),
        win_dir: Some("C:\\Windows".to_string()),
        target_arch: Some("x86_64".to_string()),
        host_arch: "x86_64".to_string(),
    })
    .unwrap();
    v.resume(Response::IsFile(true)).unwrap();
    v.resume(Response::Ran(Ok("C:\\VS".to_string()))).unwrap();
    v.resume(Response::IsFile(true)).unwrap();
    let err = v
        .resume(Response::Ran(Ok(
            "[ERROR:vcvarsall.bat] Invalid argument\r\nsecond line".to_string(),
        )))
        .unwrap_err();
    match err {
        VcvarsError::VcvarsFailed(message) => {
            assert_eq!(
                message,
                "[ERROR:vcvarsall.bat] Invalid argument\\nsecond line"
            );
        }
        other => panic!("expected VcvarsFailed, got {other:?}"),
    }
    assert!(!v.is_built());
}

#[test]
fn substitute_args_replace_latest_and_are_consumed() {
    let mut v = Vcvars::new().not_vswhere_latest_but(vec![
        "-version".to_string(),
        "[15.0,16.0)".to_string(),
    ]);
    v.ensure_env_map();
    v.resume(Response::Inputs {
        program_files_x86: Some("C:\\PF".to_string()),
        win_dir: Some("C:\\Windows".to_string()),
        target_arch: Some("x86_64".to_string()),
        host_arch: "x86_64".to_string(),
    })
    .unwrap();
    let r = v.resume(Response::IsFile(true)).unwrap();
    let args = match r {
        EnsureOutcome::Pending(Request::Run { args, .. }) => args,
        other => panic!("expected a run request, got {other:?}"),
    };
    assert_eq!(
        args,
        vec![
            "-prerelease".to_string(),
            "-version".to_string(),
            "[15.0,16.0)".to_string(),
            "-property".to_string(),
            "installationPath".to_string(),
            "-utf8".to_string(),
        ]
    );

    // The substitute arguments are consumed: a retry on the same instance
    // uses the regular `-latest` selector again.
    let err = v
        .resume(Response::Ran(Err("spawn failed".to_string())))
        .unwrap_err();
    assert!(matches!(err, VcvarsError::CouldntRun(_, _)));
    v.ensure_env_map();
    v.resume(Response::Inputs {
        program_files_x86: Some("C:\\PF".to_string()),
        win_dir: Some("C:\\Windows".to_string()),
        target_arch: Some("x86_64".to_string()),
        host_arch: "x86_64".to_string(),
    })
    .unwrap();
    let r = v.resume(Response::IsFile(true)).unwrap();
    let args = match r {
        EnsureOutcome::Pending(Request::Run { args, .. }) => args,
        other => panic!("expected a run request, got {other:?}"),
    };
    assert_eq!(
        args,
        vec![
            "-prerelease".to_string(),
            "-latest".to_string(),
            "-property".to_string(),
            "installationPath".to_string(),
            "-utf8".to_string(),
        ]
    );
}

#[test]
fn script_path_is_escaped_for_the_shell() {
    let mut v = Vcvars::new();
    v.ensure_env_map();
    v.resume(Response::Inputs {
        program_files_x86: Some("C:\\PF".to_string()),
        win_dir: Some("C:\\Windows".to_string()),
        target_arch: Some("x86".to_string()),
        host_arch: "x86".to_string(),
    })
    .unwrap();
    v.resume(Response::IsFile(true)).unwrap();
    v.resume(Response::Ran(Ok("C:\\V^S & Co".to_string())))
        .unwrap();
    let r = v.resume(Response::IsFile(true)).unwrap();
    let args = match r {
        EnsureOutcome::Pending(Request::Run { args, .. }) => args,
        other => panic!("expected a run request, got {other:?}"),
    };
    assert_eq!(args[1], "C:\\V^^S ^& Co\\VC\\Auxiliary\\Build\\vcvarsall.bat");
    assert_eq!(args[2], "x86");
}

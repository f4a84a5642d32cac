use cov_wrapper::context::WrapperEnv;
use cov_wrapper::errors::WrapperError;
use cov_wrapper::flags::split_flags;
use cov_wrapper::flags::split_flags_text;
use cov_wrapper::gate::should_instrument;
use cov_wrapper::gate::wants_debug_log;
use cov_wrapper::invocation::decode_invocation;
use cov_wrapper::invocation::plan_args;
use cov_wrapper::invocation::plan_invocation;
use cov_wrapper::outcome::delegate_outcome;
use cov_wrapper::outcome::exit_code;
use cov_wrapper::outcome::SpawnOutcome;

/// An environment with nothing set: the wrapper must then be inert.
fn inert_env() -> WrapperEnv {
    WrapperEnv {
        session_active: false,
        crate_name: None,
        pkg_name: None,
        primary_package: false,
        target_only: None,
        target: None,
        dep_coverage: false,
        flags: None,
        debug: false,
    }
}

fn tokens(s: &[u8]) -> Vec<Vec<u8>> {
    split_flags(&s.to_vec())
}

#[test]
fn test_should_instrument_no_env() {
    let env = inert_env();
    assert!(!should_instrument(&env));
}

#[test]
fn test_should_instrument_with_env() {
    let env = WrapperEnv {
        session_active: true,
        pkg_name: Some(b"cov_wrapper".to_vec()),
        crate_name: Some(b"cov_wrapper".to_vec()),
        ..inert_env()
    };
    assert!(should_instrument(&env));
}

#[test]
fn gate_false_without_crate_context() {
    let env = WrapperEnv {
        session_active: true,
        flags: Some(b"-A".to_vec()),
        ..inert_env()
    };
    assert!(!should_instrument(&env));
}

#[test]
fn gate_false_on_target_mismatch() {
    let env = WrapperEnv {
        session_active: true,
        crate_name: Some(b"foo".to_vec()),
        target_only: Some(b"x86_64-unknown-linux-gnu".to_vec()),
        target: Some(b"aarch64-apple-darwin".to_vec()),
        ..inert_env()
    };
    assert!(!should_instrument(&env));
}

#[test]
fn gate_true_on_target_match() {
    let env = WrapperEnv {
        session_active: true,
        crate_name: Some(b"foo".to_vec()),
        target_only: Some(b"x86_64-unknown-linux-gnu".to_vec()),
        target: Some(b"x86_64-unknown-linux-gnu".to_vec()),
        ..inert_env()
    };
    assert!(should_instrument(&env));
}

#[test]
fn gate_true_without_target_restriction() {
    let env = WrapperEnv {
        session_active: true,
        crate_name: Some(b"foo".to_vec()),
        target: Some(b"aarch64-apple-darwin".to_vec()),
        ..inert_env()
    };
    assert!(should_instrument(&env));
}

#[test]
fn dep_coverage_marker_does_not_change_decision() {
    fn package_env(dep_coverage: bool) -> WrapperEnv {
        WrapperEnv {
            session_active: true,
            crate_name: Some(b"foo".to_vec()),
            dep_coverage,
            ..inert_env()
        }
    }
    assert!(should_instrument(&package_env(false)));
    assert!(should_instrument(&package_env(true)));
    let probe = WrapperEnv { dep_coverage: true, ..inert_env() };
    assert!(!should_instrument(&probe));
}

#[test]
fn tokenize_single_spaces() {
    assert_eq!(tokens(b"-A -B"), vec![b"-A".to_vec(), b"-B".to_vec()]);
}

#[test]
fn tokenize_repeated_interior_spaces() {
    assert_eq!(tokens(b"-A   -B"), vec![b"-A".to_vec(), b"-B".to_vec()]);
}

#[test]
fn tokenize_surrounding_spaces() {
    assert_eq!(tokens(b"  -A -B  "), vec![b"-A".to_vec(), b"-B".to_vec()]);
}

#[test]
fn tokenize_empty_and_all_spaces() {
    assert_eq!(tokens(b""), Vec::<Vec<u8>>::new());
    assert_eq!(tokens(b"    "), Vec::<Vec<u8>>::new());
}

#[test]
fn tokenize_keeps_non_utf8_bytes() {
    let raw: Vec<u8> = vec![0xff, 0x41, 0x20, 0x42, 0xfe];
    assert_eq!(split_flags(&raw), vec![vec![0xff, 0x41], vec![0x42, 0xfe]]);
}

#[test]
fn inert_identity_even_with_flags_set() {
    let env = WrapperEnv {
        flags: Some(b"-A -B".to_vec()),
        crate_name: Some(b"foo".to_vec()),
        ..inert_env()
    };
    let original = vec![b"-O2".to_vec(), b"file.c".to_vec(), vec![0xff, 0x00]];
    assert_eq!(plan_args(&env, original.clone()), original);
}

#[test]
fn flag_precedence_with_args() {
    let env = WrapperEnv {
        session_active: true,
        crate_name: Some(b"foo".to_vec()),
        flags: Some(b"-A -B".to_vec()),
        ..inert_env()
    };
    let out = plan_args(&env, vec![b"-O2".to_vec()]);
    assert_eq!(out, vec![b"-A".to_vec(), b"-B".to_vec(), b"-O2".to_vec()]);
}

#[test]
fn flag_precedence_with_empty_args() {
    let env = WrapperEnv {
        session_active: true,
        crate_name: Some(b"foo".to_vec()),
        flags: Some(b"-A -B".to_vec()),
        ..inert_env()
    };
    let out = plan_args(&env, Vec::new());
    assert_eq!(out, vec![b"-A".to_vec(), b"-B".to_vec()]);
}

#[test]
fn active_without_flag_string_injects_nothing() {
    let env = WrapperEnv {
        session_active: true,
        crate_name: Some(b"foo".to_vec()),
        ..inert_env()
    };
    let original = vec![b"-O2".to_vec()];
    assert_eq!(plan_args(&env, original.clone()), original);
}

#[test]
fn decode_preserves_bytes() {
    let argv = vec![
        b"self".to_vec(),
        vec![0x2f, 0xff, 0x62, 0x69, 0x6e],
        vec![0x00, 0x01, 0x20],
    ];
    let inv = decode_invocation(&argv).unwrap();
    assert_eq!(inv.delegate, vec![0x2f, 0xff, 0x62, 0x69, 0x6e]);
    assert_eq!(inv.args, vec![vec![0x00, 0x01, 0x20]]);
}

#[test]
fn end_to_end_instrumented() {
    let env = WrapperEnv {
        session_active: true,
        crate_name: Some(b"foo".to_vec()),
        flags: Some(b"--cfg coverage".to_vec()),
        ..inert_env()
    };
    let argv = vec![
        b"self".to_vec(),
        b"/usr/bin/cc".to_vec(),
        b"-O2".to_vec(),
        b"file.c".to_vec(),
    ];
    let inv = plan_invocation(&env, &argv).unwrap();
    assert_eq!(inv.delegate, b"/usr/bin/cc".to_vec());
    assert_eq!(
        inv.args,
        vec![
            b"--cfg".to_vec(),
            b"coverage".to_vec(),
            b"-O2".to_vec(),
            b"file.c".to_vec(),
        ]
    );

    let ok = delegate_outcome(
        "/usr/bin/cc".to_string(),
        SpawnOutcome::Exited { success: true, status: "exit status: 0".to_string() },
    );
    assert!(ok.is_ok());
    assert_eq!(exit_code(&ok), 0);

    let failed = delegate_outcome(
        "/usr/bin/cc".to_string(),
        SpawnOutcome::Exited { success: false, status: "signal: 9 (SIGKILL)".to_string() },
    );
    assert!(matches!(
        failed,
        Err(WrapperError::DelegateFailed { ref status }) if status == "signal: 9 (SIGKILL)"
    ));
    assert_eq!(exit_code(&failed), 1);
}

#[test]
fn insufficient_arguments() {
    let env = inert_env();
    let argv = vec![b"self".to_vec()];
    let r = plan_invocation(&env, &argv);
    assert!(matches!(r, Err(WrapperError::InsufficientArguments)));
    let r = r.map(|_| ());
    assert_eq!(exit_code(&r), 1);
}

#[test]
fn spawn_failure_is_reported_with_path_and_cause() {
    let r = delegate_outcome(
        "/usr/bin/cc".to_string(),
        SpawnOutcome::SpawnFailed { detail: "No such file or directory".to_string() },
    );
    match &r {
        Err(WrapperError::DelegateSpawnError { delegate, detail }) => {
            assert_eq!(delegate, "/usr/bin/cc");
            assert_eq!(detail, "No such file or directory");
        }
        other => panic!("unexpected outcome: {:?}", other),
    }
    assert_eq!(exit_code(&r), 1);
}

#[test]
fn error_messages() {
    assert_eq!(
        WrapperError::InsufficientArguments.message(),
        "rustc wrapper called without rustc path"
    );
    assert_eq!(
        WrapperError::InvalidFlagEncoding.message(),
        "CARGO_LLVM_COV_FLAGS contains invalid UTF-8"
    );
    let spawn = WrapperError::DelegateSpawnError {
        delegate: "/usr/bin/cc".to_string(),
        detail: "No such file or directory".to_string(),
    };
    assert_eq!(
        spawn.message(),
        "failed to execute rustc: /usr/bin/cc: No such file or directory"
    );
    let failed = WrapperError::DelegateFailed { status: "exit status: 101".to_string() };
    assert_eq!(failed.message(), "rustc exited with status: exit status: 101");
    assert_eq!(
        failed.diagnostic_line(),
        "cargo-llvm-cov wrapper error: rustc exited with status: exit status: 101"
    );
}

#[test]
fn debug_line_follows_marker_alone() {
    let with_names = WrapperEnv {
        debug: true,
        crate_name: Some(b"foo".to_vec()),
        pkg_name: Some(b"foo".to_vec()),
        ..inert_env()
    };
    assert!(wants_debug_log(&with_names));

    let bare_probe = WrapperEnv { debug: true, ..inert_env() };
    assert!(wants_debug_log(&bare_probe));

    let no_marker = WrapperEnv {
        crate_name: Some(b"foo".to_vec()),
        pkg_name: Some(b"foo".to_vec()),
        ..inert_env()
    };
    assert!(!wants_debug_log(&no_marker));
}

#[test]
fn text_splitting_matches_byte_splitting_on_utf8() {
    assert_eq!(
        split_flags_text(&b"  -A -B  ".to_vec()).unwrap(),
        vec![b"-A".to_vec(), b"-B".to_vec()]
    );
    assert_eq!(split_flags_text(&b"".to_vec()).unwrap(), Vec::<Vec<u8>>::new());
}

#[test]
fn text_splitting_rejects_invalid_utf8() {
    let r = split_flags_text(&vec![0x2d, 0x41, 0xff]);
    assert!(matches!(r, Err(WrapperError::InvalidFlagEncoding)));
}

#[test]
fn diagnostic_suppressed_for_delegate_failure_only() {
    let failed = WrapperError::DelegateFailed { status: "exit status: 1".to_string() };
    assert!(!failed.wants_diagnostic());
    assert!(WrapperError::InsufficientArguments.wants_diagnostic());
    assert!(WrapperError::InvalidFlagEncoding.wants_diagnostic());
    let spawn = WrapperError::DelegateSpawnError {
        delegate: "/usr/bin/cc".to_string(),
        detail: "No such file or directory".to_string(),
    };
    assert!(spawn.wants_diagnostic());
}

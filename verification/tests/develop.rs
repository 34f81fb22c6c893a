use flox_develop::build_lock::BuildLock;
use flox_develop::catalog_lock::{CatalogAction, CatalogEvent, TempFile};
use flox_develop::dev_env::{classify_print_failure, report_print_failure, DevEnvRun};
use flox_develop::develop::{
    Activate, ActivateForm, BaseCatalogUrlSelect, Develop, DevelopOptions, DirEnvironmentSelect,
};
use flox_develop::develop_error::{DevelopError, DevelopFailure};
use flox_develop::develop_events::{
    CommandOutput, DetectedEnvironment, DevelopAction, DevelopEvent, LoadedEnvironment,
};
use flox_develop::error::ScanError;
use flox_develop::rcfile::{rcfile_content, rcfile_for_paths, RcfileRun};
use flox_develop::references::RefSet;
use flox_develop::session::DevelopRun;
use flox_develop::target::{ExpressionBuildMetadata, PackageTarget, PackageTargetKind};

fn expression(name: &str) -> PackageTarget {
    PackageTarget {
        name: name.to_string(),
        kind: PackageTargetKind::ExpressionBuild(ExpressionBuildMetadata {
            rel_file_path: b"greet.nix".to_vec(),
        }),
    }
}

fn manifest(name: &str) -> PackageTarget {
    PackageTarget {
        name: name.to_string(),
        kind: PackageTargetKind::ManifestBuild { sandbox: None },
    }
}

fn options() -> DevelopOptions {
    DevelopOptions {
        environment: DirEnvironmentSelect::default(),
        base_catalog_url_select: Some(BaseCatalogUrlSelect { argument: "stable".to_string() }),
        package: "greet".to_string(),
    }
}

fn denied() -> std::io::Error {
    std::io::Error::from(std::io::ErrorKind::PermissionDenied)
}

#[test]
fn refuse_manifest_build_allows_expression_builds() {
    let target = PackageTarget {
        name: "greet".to_string(),
        kind: PackageTargetKind::ExpressionBuild(ExpressionBuildMetadata {
            rel_file_path: Default::default(),
        }),
    };
    assert!(Develop::refuse_manifest_build(&target).is_ok());
}

#[test]
fn refuse_manifest_build_names_activate_and_sandbox() {
    let target = PackageTarget {
        name: "greet".to_string(),
        kind: PackageTargetKind::ManifestBuild { sandbox: None },
    };
    let message = Develop::refuse_manifest_build(&target).unwrap_err();
    assert!(message.contains("flox activate"));
    assert!(message.contains("sandbox"));
    assert!(message.contains("greet"));
}

#[test]
fn the_refusal_of_a_manifest_build_in_full() {
    assert_eq!(
        Develop::refuse_manifest_build(&manifest("greet")).unwrap_err(),
        "Cannot develop 'greet': it is a manifest build, not a Nix expression build.\n\
         An unsandboxed manifest build already runs against the activated environment,\n\
         so the shell it would get is one you can enter today.\n\
         If 'greet' declares any 'sandbox' mode other than \"off\", set 'sandbox = \"off\"' first.\n\
         \n\
         Next:\n\
         \x20 $ flox activate                      <- Enter the environment\n\
         \x20 $ <steps from build.greet.command>  <- Run the build by hand\n"
    );
}

#[test]
fn print_dev_env_reports_a_collected_derivation() {
    let missing_drv_path = b"/tmp/flox/does-not-exist.drv".to_vec();
    let run =
        Develop::print_dev_env(missing_drv_path.clone(), "greet".to_string(), b"/tmp".to_vec());
    match run.action() {
        DevelopAction::PrintDevEnv { subcommand, drv_path } => {
            assert_eq!(subcommand, "print-dev-env");
            assert_eq!(*drv_path, missing_drv_path);
        },
        _ => panic!("the environment is printed first"),
    }
    let run = run.step(DevelopEvent::Printed(Ok(CommandOutput {
        success: false,
        stdout: vec![],
        stderr: b"error: path does not exist".to_vec(),
    })));
    match run.action() {
        DevelopAction::Probe { path } => assert_eq!(*path, missing_drv_path),
        _ => panic!("the derivation is looked for once printing has failed"),
    }
    let err = match run.step(DevelopEvent::Probed(false)) {
        DevEnvRun::Ended(Err(error)) => error,
        other => panic!("not ended: {other:?}"),
    };
    assert!(matches!(
        err,
        DevelopError::DerivationGarbageCollected { pname } if pname == "greet"
    ));
}

#[test]
fn a_derivation_that_exists_fails_in_nixs_own_words() {
    let run = Develop::print_dev_env(b"/d".to_vec(), "greet".to_string(), b"/tmp".to_vec())
        .step(DevelopEvent::Printed(Ok(CommandOutput {
            success: false,
            stdout: vec![],
            stderr: b"boom \xff\xc3\xa9".to_vec(),
        })))
        .step(DevelopEvent::Probed(true));
    match run {
        DevEnvRun::Ended(Err(error)) => {
            assert_eq!(
                error.message(),
                "Failed to build the development environment for 'greet'\nboom \u{fffd}\u{e9}"
            );
            assert!(matches!(error, DevelopError::PrintDevEnv { .. }));
        },
        other => panic!("not ended: {other:?}"),
    }
    let error = report_print_failure(true, "p".to_string(), b"\xff");
    assert_eq!(error.message(), "Failed to build the development environment for 'p'\n\u{fffd}");
    let error = classify_print_failure(true, "p".to_string(), "e".to_string());
    assert_eq!(error.message(), "Failed to build the development environment for 'p'\ne");
    let error = classify_print_failure(false, "p".to_string(), "e".to_string());
    assert_eq!(
        error.message(),
        "The derivation for 'p' was garbage collected between evaluation and use.\n\
         Please try again."
    );
}

#[test]
fn a_printed_environment_is_stored_as_it_is() {
    let run = Develop::print_dev_env(b"/d".to_vec(), "greet".to_string(), b"/tmp".to_vec()).step(
        DevelopEvent::Printed(Ok(CommandOutput {
            success: true,
            stdout: b"export A=\xff".to_vec(),
            stderr: b"noise".to_vec(),
        })),
    );
    match run.action() {
        DevelopAction::CreateFile { dir } => assert_eq!(dir, b"/tmp"),
        _ => panic!("a file is created"),
    }
    let run = run.step(DevelopEvent::FileCreated(Ok(b"/tmp/script".to_vec())));
    match run.action() {
        DevelopAction::WriteFile { path, contents } => {
            assert_eq!(path, b"/tmp/script");
            assert_eq!(contents, b"export A=\xff");
        },
        _ => panic!("the script is written"),
    }
    match run.step(DevelopEvent::FileWritten(Ok(()))) {
        DevEnvRun::Ended(Ok(path)) => assert_eq!(path, b"/tmp/script"),
        other => panic!("not ended: {other:?}"),
    }
}

#[test]
fn capturing_the_environment_can_fail_at_every_step() {
    let begin = || Develop::print_dev_env(b"/d".to_vec(), "greet".to_string(), b"/tmp".to_vec());
    let message = |run: DevEnvRun| match run {
        DevEnvRun::Ended(Err(error)) => error.message(),
        other => panic!("no error: {other:?}"),
    };
    let printed = || {
        DevelopEvent::Printed(Ok(CommandOutput { success: true, stdout: vec![], stderr: vec![] }))
    };
    assert_eq!(
        message(begin().step(DevelopEvent::Printed(Err(denied())))),
        "Failed to call 'nix print-dev-env'"
    );
    assert_eq!(
        message(begin().step(printed()).step(DevelopEvent::FileCreated(Err(denied())))),
        "failed to write the development shell's environment script"
    );
    let run = begin()
        .step(printed())
        .step(DevelopEvent::FileCreated(Ok(b"/f".to_vec())))
        .step(DevelopEvent::FileWritten(Err(denied())));
    assert!(matches!(run, DevEnvRun::Ended(Err(DevelopError::CreateEnvScriptFile(_)))));
}

const PROMPT: &str = r#""

# 3. Flox prompt: wrap the existing PS1, never replace it. This
#    duplicates the wrap-not-replace logic in
#    assets/environment-interpreter/activate/activate.d/set-prompt.bash
#    rather than sourcing it: that asset depends on activation-time
#    state (FLOX_PROMPT_ENVIRONMENTS, _activate_d) a develop shell
#    never sets.
if [ -n "${PS1:-}" ]; then
  if [ -z "${FLOX_SAVE_BASH_PS1:-}" ]; then
    export FLOX_SAVE_BASH_PS1="$PS1"
  fi
  if [ "${NO_COLOR:-0}" = "0" ]; then
    __flox_develop_marker="\[\e[1m\]flox [develop: greet]\[\e[0m\] "
  else
    __flox_develop_marker="flox [develop: greet] "
  fi
  case "$FLOX_SAVE_BASH_PS1" in
    *\\n*) PS1="${FLOX_SAVE_BASH_PS1/\\n/\\n$__flox_develop_marker}" ;;
    *\\012*) PS1="${FLOX_SAVE_BASH_PS1/\\012/\\012$__flox_develop_marker}" ;;
    *) PS1="$__flox_develop_marker$FLOX_SAVE_BASH_PS1" ;;
  esac
  unset __flox_develop_marker
fi
"#;

const ENV_SCRIPT: &str = r#"
# 2. The `nix print-dev-env` output: build inputs, stdenv
#    functions, NIX_BUILD_TOP/TMPDIR fixups, shellHook eval. It
#    sets nix_saved_PATH/nix_saved_XDG_DATA_DIRS itself, from the
#    PATH live at this point — this rcfile must not pre-set or
#    clobber them.
source ""#;

const BASHRC: &str = r#"# 1. User config first — REQUIRED to be first. The env script
#    sourced below overwrites PATH with the build inputs and then
#    appends whatever PATH was live when it was sourced. Run
#    ~/.bashrc afterwards instead and the user's own PATH entries
#    land in front of the build inputs, shadowing the build's
#    toolchain.
#
#    _flox_sourcing_rc is the guard flox's own activation rcfile
#    sets (flox-activations/src/gen_rc/bash.rs), read back at
#    attach.rs. It stops a subshell 'flox activate' inside
#    ~/.bashrc from re-sourcing ~/.bashrc from inside this very
#    sourcing. It does NOT suppress the activation itself — see
#    the disclosure printed before this shell's prompt.
if [ -n "${PS1:-}" ] && [ -f "/home/u/.bashrc" ]; then
  export _flox_sourcing_rc=true
  source "/home/u/.bashrc"
  unset _flox_sourcing_rc
fi
"#;

#[test]
fn the_rcfile_in_full() {
    let without_home = format!("{ENV_SCRIPT}/tmp/script{PROMPT}");
    assert_eq!(rcfile_content(None, "/tmp/script", "greet"), without_home);
    assert_eq!(
        rcfile_content(Some("/home/u"), "/tmp/script", "greet"),
        format!("{BASHRC}{without_home}")
    );
}

#[test]
fn the_users_configuration_runs_before_the_env_script() {
    let content = rcfile_content(Some("/home/u"), "/tmp/script", "greet");
    let bashrc = content.find("source \"/home/u/.bashrc\"").unwrap();
    let script = content.find("source \"/tmp/script\"").unwrap();
    let prompt = content.find("__flox_develop_marker").unwrap();
    assert!(bashrc < script && script < prompt);
}

#[test]
fn an_rcfile_is_rendered_into_a_new_file() {
    let run =
        Develop::render_rcfile(b"/tmp/script".to_vec(), "greet".to_string(), b"/tmp".to_vec());
    assert!(matches!(run.action(), DevelopAction::FindHome));
    let run = run.step(DevelopEvent::HomeFound(Some(b"/home/u".to_vec())));
    match run.action() {
        DevelopAction::CreateFile { dir } => assert_eq!(dir, b"/tmp"),
        _ => panic!("a file is created"),
    }
    let run = run.step(DevelopEvent::FileCreated(Ok(b"/tmp/rc".to_vec())));
    match run.action() {
        DevelopAction::WriteFile { path, contents } => {
            assert_eq!(path, b"/tmp/rc");
            let expected = rcfile_content(Some("/home/u"), "/tmp/script", "greet");
            assert_eq!(contents, expected.as_bytes());
        },
        _ => panic!("the rcfile is written"),
    }
    match run.step(DevelopEvent::FileWritten(Ok(()))) {
        RcfileRun::Ended(Ok(path)) => assert_eq!(path, b"/tmp/rc"),
        other => panic!("not ended: {other:?}"),
    }
}

#[test]
fn paths_that_are_not_text_are_shown_as_well_as_they_can_be() {
    let run = Develop::render_rcfile(b"/s\xff".to_vec(), "greet".to_string(), b"/tmp".to_vec())
        .step(DevelopEvent::HomeFound(Some(b"/h\xfe".to_vec())));
    match run {
        RcfileRun::Creating { content, .. } => {
            assert_eq!(content, rcfile_content(Some("/h\u{fffd}"), "/s\u{fffd}", "greet"));
        },
        other => panic!("not rendered: {other:?}"),
    }
    assert_eq!(
        rcfile_for_paths(Some("/h\u{e9}".as_bytes().to_vec()), b"/s", "greet"),
        rcfile_content(Some("/h\u{e9}"), "/s", "greet")
    );
    let run = Develop::render_rcfile(b"/s".to_vec(), "greet".to_string(), b"/tmp".to_vec())
        .step(DevelopEvent::HomeFound(None));
    match run {
        RcfileRun::Creating { content, .. } => {
            assert_eq!(content, rcfile_content(None, "/s", "greet"));
        },
        other => panic!("not rendered: {other:?}"),
    }
}

#[test]
fn rendering_the_rcfile_can_fail_at_every_step() {
    let begin = || {
        Develop::render_rcfile(b"/s".to_vec(), "greet".to_string(), b"/tmp".to_vec())
            .step(DevelopEvent::HomeFound(None))
    };
    match begin().step(DevelopEvent::FileCreated(Err(denied()))) {
        RcfileRun::Ended(Err(error)) => {
            assert_eq!(error.message(), "failed to write the development shell's rcfile")
        },
        other => panic!("no error: {other:?}"),
    }
    let run = begin()
        .step(DevelopEvent::FileCreated(Ok(b"/f".to_vec())))
        .step(DevelopEvent::FileWritten(Err(denied())));
    assert!(matches!(run, RcfileRun::Ended(Err(DevelopError::CreateRcFile(_)))));
}

#[test]
fn each_form_has_its_name() {
    assert_eq!(Develop::Package(options()).subcommand_name(), "develop");
    for (form, name) in [
        (ActivateForm::Environment, "activate"),
        (ActivateForm::Allow, "activate::allow"),
        (ActivateForm::Deny, "activate::deny"),
    ] {
        let activate = Activate { form, arguments: vec![b"--trust".to_vec()] };
        assert_eq!(activate.subcommand_name(), name);
        assert_eq!(Develop::DeprecatedActivate(activate).subcommand_name(), name);
    }
}

#[test]
fn only_the_deprecated_form_warns() {
    let handling = Develop::Package(options()).handle();
    assert_eq!(handling.metric, "develop");
    assert!(!handling.deprecated_alias);
    assert_eq!(handling.warning, None);
    assert_eq!(handling.next, Develop::Package(options()));

    let activate = Activate {
        form: ActivateForm::Environment,
        arguments: vec![b"--dir".to_vec(), b"caf\xe9".to_vec()],
    };
    let handling = Develop::DeprecatedActivate(activate.clone()).handle();
    assert_eq!(handling.metric, "develop");
    assert!(handling.deprecated_alias);
    assert_eq!(
        handling.warning,
        Some(
            "'flox develop' without a package is deprecated; it currently behaves as \
             'flox activate'.\nUse 'flox develop <PACKAGE>' to enter a development shell for a \
             Nix expression build.\n"
        )
    );
    assert_eq!(handling.next, Develop::DeprecatedActivate(activate));
}

#[test]
fn the_disclosure_names_the_package_and_six_differences() {
    let text = Develop::print_disclosure("greet");
    assert!(text.starts_with(
        "This shell approximates the build environment for 'greet'.\n\
         It is not the build. Known differences:\n  - No build sandbox is applied here."
    ));
    assert!(text.ends_with("The build shell\n    does neither."));
    assert_eq!(text.matches("\n  - ").count(), 6);
    assert!(!text.contains("{name}"));
    assert!(Develop::print_disclosure("{name}").contains("'{name}'"));
}

fn loaded() -> LoadedEnvironment {
    LoadedEnvironment {
        base_dir: b"/project".to_vec(),
        cache_path: b"/project/.flox/cache".to_vec(),
        dot_flox_path: b"/project/.flox".to_vec(),
        expressions_dir: b"/project/.flox/pkgs".to_vec(),
        expression_path_ref: "path:/project/.flox".to_string(),
    }
}

fn to_choosing() -> DevelopRun {
    Develop::develop(options(), b"/tmp/flox".to_vec())
        .step(DevelopEvent::Detected(Ok(DetectedEnvironment::Path)))
        .step(DevelopEvent::Loaded(Ok(loaded())))
}

fn to_evaluating(git_ref: Option<&str>) -> DevelopRun {
    to_choosing()
        .step(DevelopEvent::Chosen(Ok(vec![expression("greet"), manifest("other")])))
        .step(DevelopEvent::GitChecked(Ok(git_ref.map(|r| r.to_string()))))
        .step(DevelopEvent::Catalog(CatalogEvent::Probed(true)))
        .step(DevelopEvent::Catalog(CatalogEvent::Read(Ok(BuildLock::default()))))
        .step(DevelopEvent::UrlFound(Ok("nixpkgs/stable".to_string())))
        .step(DevelopEvent::Prefetched(Ok(())))
        .step(DevelopEvent::Prefetched(Ok(())))
}

fn to_disclosing() -> DevelopRun {
    disclosing(to_evaluating(None))
}

fn disclosing(evaluating: DevelopRun) -> DevelopRun {
    evaluating
        .step(DevelopEvent::Evaluated(Ok(vec![b"/nix/store/a.drv".to_vec()])))
        .step(DevelopEvent::Printed(Ok(CommandOutput {
            success: true,
            stdout: b"env".to_vec(),
            stderr: vec![],
        })))
        .step(DevelopEvent::FileCreated(Ok(b"/tmp/flox/script".to_vec())))
        .step(DevelopEvent::FileWritten(Ok(())))
        .step(DevelopEvent::HomeFound(None))
        .step(DevelopEvent::FileCreated(Ok(b"/tmp/flox/rc".to_vec())))
        .step(DevelopEvent::FileWritten(Ok(())))
}

fn failure(run: DevelopRun) -> DevelopFailure {
    match run {
        DevelopRun::Ended(failure) => failure,
        other => panic!("not ended: {other:?}"),
    }
}

#[test]
fn a_shell_is_opened_step_by_step() {
    let run = Develop::develop(options(), b"/tmp/flox".to_vec());
    match run.action() {
        DevelopAction::Detect { environment, purpose, command } => {
            assert_eq!(*environment, DirEnvironmentSelect::Unspecified);
            assert_eq!(purpose, "Develop packages of");
            assert_eq!(command, "develop");
        },
        _ => panic!("the environment is found first"),
    }
    let run = run.step(DevelopEvent::Detected(Ok(DetectedEnvironment::Path)));
    assert!(matches!(run.action(), DevelopAction::Load));
    let run = run.step(DevelopEvent::Loaded(Ok(loaded())));
    match run.action() {
        DevelopAction::Choose { package, expression_ref } => {
            assert_eq!(package, "greet");
            assert_eq!(expression_ref, "path:/project/.flox");
        },
        _ => panic!("the target is found"),
    }
    let run = run.step(DevelopEvent::Chosen(Ok(vec![expression("greet")])));
    match run.action() {
        DevelopAction::CheckGit { package, rel_file_path, dir } => {
            assert_eq!(package, "greet");
            assert_eq!(rel_file_path, b"greet.nix");
            assert_eq!(dir, b"/project/.flox");
        },
        _ => panic!("git is asked"),
    }
    let run = run.step(DevelopEvent::GitChecked(Ok(Some("git+file:///project".to_string()))));
    match run.action() {
        DevelopAction::Catalog(CatalogAction::Probe { path }) => {
            assert_eq!(path, b"/project/.flox/catalog.lock");
        },
        _ => panic!("the catalog lock is looked for"),
    }
    let run = run.step(DevelopEvent::Catalog(CatalogEvent::Probed(false)));
    match run.action() {
        DevelopAction::Catalog(CatalogAction::Scan { dir, file }) => {
            assert_eq!(dir, b"/project/.flox/pkgs");
            assert_eq!(file, b"greet.nix");
        },
        _ => panic!("the package's expression is scanned"),
    }
    let run = run
        .step(DevelopEvent::Catalog(CatalogEvent::Probed(true)))
        .step(DevelopEvent::Probed(true));
    assert!(matches!(run.action(), DevelopAction::Catalog(CatalogAction::Scan { .. })));
}

#[test]
fn the_evaluation_is_given_the_lock_and_the_first_target() {
    let run = to_evaluating(Some("git+file:///project"));
    match run.action() {
        DevelopAction::Evaluate {
            base_dir,
            expression_ref,
            cache_path,
            base_nixpkgs_url,
            package,
            lockfile,
            extra,
        } => {
            assert_eq!(base_dir, b"/project");
            assert_eq!(expression_ref, "git+file:///project");
            assert_eq!(cache_path, b"/project/.flox/cache");
            assert_eq!(base_nixpkgs_url, "nixpkgs/stable");
            assert_eq!(package, "greet");
            assert_eq!(lockfile, b"/project/.flox/catalog.lock");
            assert_eq!(extra, None);
        },
        _ => panic!("the package is evaluated"),
    }
    match to_evaluating(None).action() {
        DevelopAction::Evaluate { expression_ref, .. } => {
            assert_eq!(expression_ref, "path:/project/.flox");
        },
        _ => panic!("the package is evaluated"),
    }
    let run = run.step(DevelopEvent::Evaluated(Ok(vec![b"/a.drv".to_vec(), b"/b.drv".to_vec()])));
    match run.action() {
        DevelopAction::PrintDevEnv { drv_path, .. } => assert_eq!(drv_path, b"/a.drv"),
        _ => panic!("the environment is printed"),
    }
}

#[test]
fn the_shell_is_started_after_disclosure_and_record() {
    let run = to_disclosing();
    match run.action() {
        DevelopAction::Disclose { text } => {
            assert_eq!(*text, Develop::print_disclosure("greet"));
        },
        _ => panic!("the disclosure is shown"),
    }
    let run = run.step(DevelopEvent::Disclosed);
    match run.action() {
        DevelopAction::Record { command, fields } => {
            assert_eq!(command, "develop");
            assert_eq!(fields.exit_code, 0);
            assert_eq!(fields.duration_ms, None);
            assert_eq!(fields.error_kind, None);
        },
        _ => panic!("the completion is recorded"),
    }
    let run = run.step(DevelopEvent::Recorded(false));
    assert!(matches!(run.action(), DevelopAction::Flush));
    let run = run.step(DevelopEvent::Flushed(false));
    match run.action() {
        DevelopAction::Exec { flag, rcfile } => {
            assert_eq!(flag, "--rcfile");
            assert_eq!(rcfile, b"/tmp/flox/rc");
        },
        _ => panic!("the shell is started"),
    }
    let failure = failure(run.step(DevelopEvent::ExecFailed(denied())));
    assert!(matches!(failure, DevelopFailure::Exec(_)));
    assert_eq!(failure.message(), "failed to exec development shell");
}

#[test]
fn the_ephemeral_lock_is_gone_when_the_shell_starts() {
    let guard = tempfile::NamedTempFile::new().unwrap().into_temp_path();
    let at = guard.to_path_buf();
    let path = at.to_str().unwrap().as_bytes().to_vec();
    let run = to_choosing()
        .step(DevelopEvent::Chosen(Ok(vec![expression("greet")])))
        .step(DevelopEvent::GitChecked(Ok(None)))
        .step(DevelopEvent::Catalog(CatalogEvent::Probed(false)))
        .step(DevelopEvent::Catalog(CatalogEvent::Scanned(Ok(RefSet::new()))))
        .step(DevelopEvent::Catalog(CatalogEvent::TempCreated(Ok(TempFile {
            path: path.clone(),
            guard,
        }))))
        .step(DevelopEvent::Catalog(CatalogEvent::Written(Ok(()))))
        .step(DevelopEvent::UrlFound(Ok("nixpkgs/stable".to_string())))
        .step(DevelopEvent::Prefetched(Ok(())))
        .step(DevelopEvent::Prefetched(Ok(())));
    match run.action() {
        DevelopAction::Evaluate { lockfile, .. } => assert_eq!(*lockfile, path),
        _ => panic!("the package is evaluated"),
    }
    assert!(at.exists());
    let run = disclosing(run).step(DevelopEvent::Disclosed).step(DevelopEvent::Recorded(true));
    assert!(matches!(run.action(), DevelopAction::Flush));
    assert!(at.exists());
    let run = run.step(DevelopEvent::Flushed(true));
    assert!(matches!(run.action(), DevelopAction::Exec { .. }));
    assert!(!at.exists());
}

#[test]
fn the_evaluated_derivation_is_looked_for_when_printing_fails() {
    let run = to_evaluating(None)
        .step(DevelopEvent::Evaluated(Ok(vec![b"/a.drv".to_vec(), b"/b.drv".to_vec()])))
        .step(DevelopEvent::Printed(Ok(CommandOutput {
            success: false,
            stdout: vec![],
            stderr: b"no".to_vec(),
        })));
    match run.action() {
        DevelopAction::Probe { path } => assert_eq!(path, b"/a.drv"),
        _ => panic!("the derivation is looked for"),
    }
}

#[test]
fn the_disclosure_waits_for_the_rcfile() {
    let run = to_evaluating(None)
        .step(DevelopEvent::Evaluated(Ok(vec![b"/a.drv".to_vec()])))
        .step(DevelopEvent::Printed(Ok(CommandOutput {
            success: true,
            stdout: b"env".to_vec(),
            stderr: vec![],
        })))
        .step(DevelopEvent::FileCreated(Ok(b"/tmp/flox/script".to_vec())))
        .step(DevelopEvent::FileWritten(Ok(())))
        .step(DevelopEvent::HomeFound(None))
        .step(DevelopEvent::FileCreated(Ok(b"/tmp/flox/rc".to_vec())));
    match run.action() {
        DevelopAction::WriteFile { path, contents } => {
            assert_eq!(path, b"/tmp/flox/rc");
            assert_eq!(contents, rcfile_content(None, "/tmp/flox/script", "greet").as_bytes());
        },
        _ => panic!("the rcfile is written"),
    }
    let run = run.step(DevelopEvent::Disclosed).step(DevelopEvent::Recorded(true));
    assert!(matches!(run.action(), DevelopAction::WriteFile { .. }));
    let run = run.step(DevelopEvent::FileWritten(Err(denied())));
    assert!(matches!(run.action(), DevelopAction::Nothing));
    assert!(matches!(failure(run), DevelopFailure::Shell(DevelopError::CreateRcFile(_))));
}

#[test]
fn prefetching_comes_before_the_evaluation() {
    let run = to_choosing()
        .step(DevelopEvent::Chosen(Ok(vec![expression("greet")])))
        .step(DevelopEvent::GitChecked(Ok(None)))
        .step(DevelopEvent::Catalog(CatalogEvent::Probed(true)))
        .step(DevelopEvent::Catalog(CatalogEvent::Read(Ok(BuildLock::default()))));
    match run.action() {
        DevelopAction::FindUrl { select } => {
            assert_eq!(*select, Some(BaseCatalogUrlSelect { argument: "stable".to_string() }));
        },
        _ => panic!("the base nixpkgs is found"),
    }
    let run = run.step(DevelopEvent::UrlFound(Ok("nixpkgs/stable".to_string())));
    assert!(matches!(run.action(), DevelopAction::PrefetchCommon));
    let run = run.step(DevelopEvent::Prefetched(Ok(())));
    match run.action() {
        DevelopAction::PrefetchTarget { package, rel_file_path, base_nixpkgs_url } => {
            assert_eq!(package, "greet");
            assert_eq!(rel_file_path, b"greet.nix");
            assert_eq!(base_nixpkgs_url, "nixpkgs/stable");
        },
        _ => panic!("the target's nixpkgs is fetched"),
    }
    let run = run.step(DevelopEvent::Prefetched(Ok(())));
    assert!(matches!(run.action(), DevelopAction::Evaluate { .. }));
}

#[test]
fn refusals_end_the_command() {
    let run = Develop::develop(options(), b"/tmp".to_vec()).step(DevelopEvent::Detected(Ok(
        DetectedEnvironment::Managed { refusal: "needs project files".to_string() },
    )));
    assert_eq!(failure(run).message(), "needs project files");

    let run = to_choosing().step(DevelopEvent::Chosen(Ok(vec![manifest("greet")])));
    assert!(matches!(run.action(), DevelopAction::Nothing));
    let failure = failure(run);
    assert!(matches!(failure, DevelopFailure::ManifestBuild(_)));
    assert_eq!(
        failure.message(),
        Develop::refuse_manifest_build(&manifest("greet")).unwrap_err()
    );
}

#[test]
fn the_first_failing_step_ends_the_command() {
    let reason = || "no".to_string();
    let begin = || Develop::develop(options(), b"/tmp".to_vec());
    let chosen = || to_choosing().step(DevelopEvent::Chosen(Ok(vec![expression("greet")])));
    for run in [
        begin().step(DevelopEvent::Detected(Err(reason()))),
        begin()
            .step(DevelopEvent::Detected(Ok(DetectedEnvironment::Path)))
            .step(DevelopEvent::Loaded(Err(reason()))),
        to_choosing().step(DevelopEvent::Chosen(Err(reason()))),
        chosen().step(DevelopEvent::GitChecked(Err(reason()))),
        to_evaluating(None).step(DevelopEvent::Evaluated(Err(reason()))),
    ] {
        let failure = failure(run);
        assert!(matches!(failure, DevelopFailure::Step(_)));
        assert_eq!(failure.message(), "no");
    }
    let locked = || {
        chosen()
            .step(DevelopEvent::GitChecked(Ok(None)))
            .step(DevelopEvent::Catalog(CatalogEvent::Probed(true)))
            .step(DevelopEvent::Catalog(CatalogEvent::Read(Ok(BuildLock::default()))))
    };
    let url = || DevelopEvent::UrlFound(Ok("u".to_string()));
    for run in [
        locked().step(DevelopEvent::UrlFound(Err(reason()))),
        locked().step(url()).step(DevelopEvent::Prefetched(Err(reason()))),
        locked()
            .step(url())
            .step(DevelopEvent::Prefetched(Ok(())))
            .step(DevelopEvent::Prefetched(Err(reason()))),
    ] {
        assert_eq!(failure(run).message(), "no");
    }
    let run = chosen()
        .step(DevelopEvent::GitChecked(Ok(None)))
        .step(DevelopEvent::Catalog(CatalogEvent::Probed(false)))
        .step(DevelopEvent::Catalog(CatalogEvent::Scanned(Err(ScanError {
            message: "bad".to_string(),
        }))));
    let failed = failure(run);
    assert!(matches!(failed, DevelopFailure::CatalogLock(_)));
    assert_eq!(failed.message(), "bad");

    let run = to_evaluating(None)
        .step(DevelopEvent::Evaluated(Ok(vec![b"/a.drv".to_vec()])))
        .step(DevelopEvent::Printed(Err(denied())));
    let failed = failure(run);
    assert!(matches!(failed, DevelopFailure::Shell(DevelopError::CallPrintDevEnv(_))));
    assert_eq!(failed.message(), "Failed to call 'nix print-dev-env'");
}

#[test]
fn empty_replies_answer_nothing() {
    let run = to_choosing().step(DevelopEvent::Chosen(Ok(vec![])));
    assert!(matches!(run.action(), DevelopAction::Choose { .. }));
    let run = to_evaluating(None).step(DevelopEvent::Evaluated(Ok(vec![])));
    assert!(matches!(run.action(), DevelopAction::Evaluate { .. }));
}

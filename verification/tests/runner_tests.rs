use torchlings::SetupError;
use torchlings::bootstrap::{
    command_event, initial_stage, listing_event, probe_event, stage_command, step, venv_exists,
    CmdOutcome, Event, ProbeOutcome, Stage,
};
use torchlings::commands::{
    create_venv_command, install_requirements_command, installer_command, probe_command,
    pytest_command, query_listing_command,
};
use torchlings::delegate::{pytest_outcome, pytest_report, DelegateReport};
use torchlings::packages::{are_requirements_installed, is_package_installed, requirement_names};
use torchlings::process::SpawnReport;
use torchlings::venv_name;

fn spawned(exit_ok: bool, stdout: &[u8], stderr: &[u8]) -> SpawnReport {
    SpawnReport {
        spawned: true,
        not_found: false,
        exit_ok,
        stdout: stdout.to_vec(),
        stderr: stderr.to_vec(),
    }
}

fn not_spawned(not_found: bool, stderr: &[u8]) -> SpawnReport {
    SpawnReport {
        spawned: false,
        not_found,
        exit_ok: false,
        stdout: Vec::new(),
        stderr: stderr.to_vec(),
    }
}

const FULL_LISTING: &[u8] = b"numpy==1.26.0\npytest==8.0.0\ntorch==2.2.0\n";

#[test]
fn venv_name_is_reserved_dotted_directory() {
    assert_eq!(venv_name(), b".torchlings".to_vec());
}

#[test]
fn bootstrap_skips_every_stage_when_ready() {
    // Idempotence: with the tool present, the venv directory on disk and
    // every requirement listed, a run only probes, checks and queries.
    let s1 = step(initial_stage(), probe_event(spawned(true, b"uv 0.5.0", b""))).unwrap();
    assert_eq!(s1, Stage::CheckVenv);
    let s2 = step(s1, Event::VenvPresent(venv_exists(true))).unwrap();
    assert_eq!(s2, Stage::QueryPackages);
    let s3 = step(s2, listing_event(spawned(true, FULL_LISTING, b""))).unwrap();
    assert_eq!(s3, Stage::Ready);
    assert!(stage_command(&s3).is_none());
}

#[test]
fn bootstrap_resumes_at_venv_stage_after_failure() {
    // Resumability: a run whose venv creation fails stops there; the next
    // run passes the tool stage without reinstalling and re-attempts the
    // venv stage, then proceeds to the requirements stage.
    let failed = step(Stage::CreateVenv, command_event(spawned(false, b"", b"disk full")));
    assert!(matches!(failed, Err(SetupError::VenvCreationFailed(ref d)) if d == b"disk full"));

    let s1 = step(initial_stage(), probe_event(spawned(true, b"uv 0.5.0", b""))).unwrap();
    assert_eq!(s1, Stage::CheckVenv);
    let s2 = step(s1, Event::VenvPresent(venv_exists(false))).unwrap();
    assert_eq!(s2, Stage::CreateVenv);
    let s3 = step(s2, command_event(spawned(true, b"", b""))).unwrap();
    assert_eq!(s3, Stage::QueryPackages);
}

#[test]
fn missing_tool_is_installed_and_reprobed() {
    let s1 = step(Stage::ProbeTool, probe_event(not_spawned(true, b"no such file"))).unwrap();
    assert_eq!(s1, Stage::InstallTool);
    let s2 = step(s1, command_event(spawned(true, b"", b""))).unwrap();
    assert_eq!(s2, Stage::ReprobeTool);
    let s3 = step(s2, probe_event(spawned(true, b"uv 0.5.0", b""))).unwrap();
    assert_eq!(s3, Stage::CheckVenv);
}

#[test]
fn tool_still_absent_after_install_is_its_own_error() {
    let r = step(Stage::ReprobeTool, probe_event(not_spawned(true, b"still gone")));
    assert!(matches!(r, Err(SetupError::UvNotFound)));
}

#[test]
fn failing_probe_is_an_error_not_an_install_trigger() {
    // A tool that is present but reports failure must propagate as an
    // error rather than silently re-attempt installation.
    let r = step(Stage::ProbeTool, probe_event(spawned(false, b"", b"uv: broken")));
    assert!(matches!(r, Err(SetupError::CommandFailed(ref d)) if d == b"uv: broken"));
}

#[test]
fn installer_failure_carries_its_diagnostics() {
    let r = step(Stage::InstallTool, command_event(spawned(false, b"", b"curl: (6) no host")));
    assert!(matches!(r, Err(SetupError::CommandFailed(ref d)) if d == b"curl: (6) no host"));
}

#[test]
fn spawn_failure_surfaces_as_io_error() {
    let r = step(Stage::InstallTool, command_event(not_spawned(false, b"permission denied")));
    assert!(matches!(r, Err(SetupError::IoError(ref d)) if d == b"permission denied"));
}

#[test]
fn requirements_install_failure_carries_its_diagnostics() {
    let r = step(
        Stage::InstallRequirements,
        command_event(spawned(false, b"", b"no matching distribution")),
    );
    assert!(
        matches!(r, Err(SetupError::RequirementsInstallFailed(ref d)) if d == b"no matching distribution")
    );
}

#[test]
fn successful_requirements_install_completes_the_run() {
    let s = step(Stage::InstallRequirements, command_event(spawned(true, b"", b""))).unwrap();
    assert_eq!(s, Stage::Ready);
}

#[test]
fn failed_listing_query_still_attempts_installation() {
    // Conservative-missing policy: a query that exited non-zero yields no
    // listing, and the run moves to the batched install.
    let s = step(Stage::QueryPackages, listing_event(spawned(false, b"", b"broken venv"))).unwrap();
    assert_eq!(s, Stage::InstallRequirements);
    assert!(!are_requirements_installed(None));
}

#[test]
fn partial_listing_still_attempts_installation() {
    let listing = b"pytest==8.0.0\n".to_vec();
    assert!(!are_requirements_installed(Some(&listing)));
    let s = step(Stage::QueryPackages, Event::Listing(Some(listing))).unwrap();
    assert_eq!(s, Stage::InstallRequirements);
}

#[test]
fn install_is_batched_over_the_full_requirement_set() {
    // Install batching: whatever was missing, the issued command requests
    // every requirement, not a subset.
    let c = install_requirements_command();
    assert_eq!(c.program, b"uv".to_vec());
    assert_eq!(
        c.args,
        vec![
            b"pip".to_vec(),
            b"install".to_vec(),
            b"torch".to_vec(),
            b"pytest".to_vec(),
            b"numpy".to_vec(),
        ]
    );
    assert!(c.scoped_to_venv);
}

#[test]
fn requirement_names_are_fixed_and_ordered() {
    assert_eq!(
        requirement_names(),
        vec![b"torch".to_vec(), b"pytest".to_vec(), b"numpy".to_vec()]
    );
}

#[test]
fn package_membership_is_an_exact_name_prefix_match() {
    let listing = b"torchvision==0.17.0\nxtorch==1.0\ntorch-audio==2.2.0".to_vec();
    let torch = b"torch".to_vec();
    // Similar names must not satisfy the requirement: the line has to
    // start with the name followed by the double equals sign.
    assert!(!is_package_installed(&listing, &torch));
    let listing2 = b"torchvision==0.17.0\ntorch==2.2.0".to_vec();
    assert!(is_package_installed(&listing2, &torch));
}

#[test]
fn package_membership_needs_a_line_start() {
    let listing = b"xxtorch==2.2.0".to_vec();
    assert!(!is_package_installed(&listing, &b"torch".to_vec()));
    let listing2 = b"torch==2.2.0".to_vec();
    assert!(is_package_installed(&listing2, &b"torch".to_vec()));
}

#[test]
fn empty_listing_satisfies_nothing() {
    let listing = Vec::new();
    assert!(!are_requirements_installed(Some(&listing)));
}

#[test]
fn full_listing_satisfies_the_requirements() {
    let listing = FULL_LISTING.to_vec();
    assert!(are_requirements_installed(Some(&listing)));
}

#[test]
fn probe_command_is_a_version_query() {
    let c = probe_command();
    assert_eq!(c.program, b"uv".to_vec());
    assert_eq!(c.args, vec![b"--version".to_vec()]);
    assert!(!c.scoped_to_venv);
}

#[test]
fn installer_command_pipes_the_official_script_through_the_shell() {
    let c = installer_command();
    assert_eq!(c.program, b"sh".to_vec());
    assert_eq!(
        c.args,
        vec![
            b"-c".to_vec(),
            b"curl -LsSf https://astral.sh/uv/install.sh | sh".to_vec(),
        ]
    );
    assert!(!c.scoped_to_venv);
}

#[test]
fn create_venv_command_targets_the_reserved_directory() {
    let c = create_venv_command();
    assert_eq!(c.program, b"uv".to_vec());
    assert_eq!(c.args, vec![b"venv".to_vec(), b".torchlings".to_vec()]);
}

#[test]
fn query_listing_command_uses_freeze_format_inside_the_venv() {
    let c = query_listing_command();
    assert_eq!(c.program, b"uv".to_vec());
    assert_eq!(
        c.args,
        vec![b"pip".to_vec(), b"list".to_vec(), b"--format=freeze".to_vec()]
    );
    assert!(c.scoped_to_venv);
}

#[test]
fn stage_commands_follow_the_stages() {
    assert_eq!(stage_command(&Stage::ProbeTool).unwrap().program, b"uv".to_vec());
    assert_eq!(stage_command(&Stage::InstallTool).unwrap().program, b"sh".to_vec());
    assert!(stage_command(&Stage::CheckVenv).is_none());
    assert_eq!(
        stage_command(&Stage::InstallRequirements).unwrap().args[1],
        b"install".to_vec()
    );
    assert!(stage_command(&Stage::Ready).is_none());
}

#[test]
fn pytest_command_optionally_narrows_to_a_path() {
    let c = pytest_command(None);
    assert_eq!(c.program, b"uv".to_vec());
    assert_eq!(c.args, vec![b"run".to_vec(), b"pytest".to_vec()]);
    assert!(c.scoped_to_venv);
    let c2 = pytest_command(Some(b"exercises".to_vec()));
    assert_eq!(
        c2.args,
        vec![b"run".to_vec(), b"pytest".to_vec(), b"exercises".to_vec()]
    );
}

#[test]
fn delegate_reports_success_exactly_on_exit_zero() {
    // Exit-code fidelity: exit 0 reports success, non-zero reports
    // failure, and both streams come through verbatim either way.
    let passed = pytest_report(spawned(true, b"3 passed", b"warnings")).unwrap();
    assert!(passed.success);
    assert_eq!(passed.stdout, b"3 passed".to_vec());
    assert_eq!(passed.stderr, b"warnings".to_vec());
    assert!(pytest_outcome(passed).is_ok());

    let failed = pytest_report(spawned(false, b"1 failed", b"trace")).unwrap();
    assert!(!failed.success);
    assert_eq!(failed.stdout, b"1 failed".to_vec());
    assert_eq!(failed.stderr, b"trace".to_vec());
    let r = pytest_outcome(failed);
    assert!(matches!(r, Err(SetupError::CommandFailed(ref d)) if d == b"trace"));
}

#[test]
fn delegate_turns_a_failed_spawn_into_an_io_error() {
    let r = pytest_report(not_spawned(true, b"uv not on path"));
    assert!(matches!(r, Err(SetupError::IoError(ref d)) if d == b"uv not on path"));
}

#[test]
fn delegate_report_can_be_rebuilt() {
    let d = DelegateReport { success: true, stdout: b"ok".to_vec(), stderr: Vec::new() };
    assert!(pytest_outcome(d).is_ok());
}

#[test]
fn error_diagnostics_are_kept_with_the_error() {
    let e = SetupError::VenvCreationFailed(b"mkdir failed".to_vec());
    assert_eq!(e.diagnostic(), Some(&b"mkdir failed".to_vec()));
    assert_eq!(SetupError::UvNotFound.diagnostic(), None);
}

#[test]
fn probe_outcomes_distinguish_absence_from_failure() {
    let absent = probe_event(not_spawned(true, b""));
    assert!(matches!(absent, Event::Probe(ProbeOutcome::NotFound)));
    let broken = probe_event(spawned(false, b"", b"bad install"));
    assert!(matches!(broken, Event::Probe(ProbeOutcome::Failed(ref d)) if d == b"bad install"));
    let io = probe_event(not_spawned(false, b"access denied"));
    assert!(matches!(io, Event::Probe(ProbeOutcome::IoFailure(ref d)) if d == b"access denied"));
}

#[test]
fn listing_event_keeps_stdout_only_on_success() {
    let ok = listing_event(spawned(true, b"torch==2.2.0", b"noise"));
    assert!(matches!(ok, Event::Listing(Some(ref l)) if l == b"torch==2.2.0"));
    let bad = listing_event(spawned(false, b"torch==2.2.0", b""));
    assert!(matches!(bad, Event::Listing(None)));
    let gone = listing_event(not_spawned(true, b""));
    assert!(matches!(gone, Event::Listing(None)));
}

#[test]
fn command_event_keeps_diagnostics() {
    let e = command_event(spawned(false, b"", b"oops"));
    assert!(matches!(e, Event::Command(CmdOutcome::Exited(false, ref d)) if d == b"oops"));
}

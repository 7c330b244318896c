//! The environment-bootstrap state machine.
//!
//! Bringing the execution environment to a ready state is a sequence of
//! stages, each guarded by a completion predicate that is re-derived from
//! scratch on every run: probe the package-manager tool (installing it if
//! absent and re-probing afterwards), ensure the virtual environment
//! directory exists, and reconcile the installed packages against the
//! requirement set. No progress is ever persisted; resumability comes from
//! re-checking, not from saved state.
//!
//! The machine itself is pure: [`step`] maps the current stage and the
//! observed outcome of that stage's external action to the next stage or a
//! terminal error. The caller performs the action each stage names (spawn a
//! process, test a directory) and feeds the outcome back as an [`Event`].

use vstd::prelude::*;
use crate::commands::CommandLine;
use crate::commands::CommandModel;
use crate::commands::create_venv_command;
use crate::commands::installer_command;
use crate::commands::install_requirements_command;
use crate::commands::probe_command;
use crate::commands::query_listing_command;
use crate::commands::spec_create_venv_command;
use crate::commands::spec_installer_command;
use crate::commands::spec_install_requirements_command;
use crate::commands::spec_probe_command;
use crate::commands::spec_query_listing_command;
use crate::errors::SetupError;
use crate::packages::are_requirements_installed;
use crate::packages::spec_requirements;
use crate::packages::spec_requirements_satisfied;
use crate::process::SpawnReport;

verus! {

/// The stages of the bootstrap, in the order they are visited. Each stage
/// names the one external action whose outcome decides the next stage.
#[derive(Clone, Copy, Debug, PartialEq, Eq, Structural)]
pub enum Stage {
    /// Probe whether the package-manager tool is invokable.
    ProbeTool,
    /// Run the tool's installer.
    InstallTool,
    /// Probe again after installing, to catch silent installer failures.
    ReprobeTool,
    /// Test whether the virtual environment directory exists.
    CheckVenv,
    /// Create the virtual environment.
    CreateVenv,
    /// Query the installed-package listing.
    QueryPackages,
    /// Install the whole requirement set in one batched call.
    InstallRequirements,
    /// The environment is ready; nothing is left to do.
    Ready,
}

/// How an attempt to probe the tool ended.
pub enum ProbeOutcome {
    /// The probe ran and exited successfully: the tool is invokable.
    Available,
    /// The probe's executable was not found: the tool is not installed.
    NotFound,
    /// The probe ran but exited non-zero; the bytes are its captured
    /// standard-error text. This is an availability failure distinct from
    /// absence, and never triggers installation.
    Failed(Vec<u8>),
    /// Spawning the probe failed for a reason other than absence; the
    /// bytes describe the operating-system error.
    IoFailure(Vec<u8>),
}

/// How a mutating command (installer, environment creation, batched
/// install) ended.
pub enum CmdOutcome {
    /// The command ran; the flag says whether it exited successfully, and
    /// the bytes are its captured standard-error text.
    Exited(bool, Vec<u8>),
    /// The command could not be spawned; the bytes describe the
    /// operating-system error.
    SpawnFailure(Vec<u8>),
}

/// The observed outcome of one stage's external action.
pub enum Event {
    /// Outcome of a tool probe.
    Probe(ProbeOutcome),
    /// Outcome of a mutating command.
    Command(CmdOutcome),
    /// Whether the virtual environment directory is present on disk.
    VenvPresent(bool),
    /// The installed-package listing: its standard output when the query
    /// ran and exited successfully, nothing for any kind of failure.
    Listing(Option<Vec<u8>>),
}

/// The event shape each stage expects.
pub open spec fn event_fits(stage: Stage, event: Event) -> bool {
    match stage {
        Stage::ProbeTool | Stage::ReprobeTool => event is Probe,
        Stage::InstallTool | Stage::CreateVenv | Stage::InstallRequirements => event is Command,
        Stage::CheckVenv => event is VenvPresent,
        Stage::QueryPackages => event is Listing,
        Stage::Ready => false,
    }
}

/// The listing an event carries, as the reconciler judges it.
pub open spec fn spec_listing_of(l: Option<Vec<u8>>) -> Option<Seq<u8>> {
    match l {
        Some(v) => Some(v@),
        None => None,
    }
}

/// The whole transition relation of the bootstrap: from a stage and the
/// outcome of its action to the next stage, or to the terminal error the
/// run surfaces. `None` marks the stage/event pairs that never arise.
pub open spec fn spec_step(stage: Stage, event: Event) -> Option<Result<Stage, SetupError>> {
    match (stage, event) {
        (Stage::ProbeTool, Event::Probe(p)) => Some(
            match p {
                ProbeOutcome::Available => Ok(Stage::CheckVenv),
                ProbeOutcome::NotFound => Ok(Stage::InstallTool),
                ProbeOutcome::Failed(d) => Err(SetupError::CommandFailed(d)),
                ProbeOutcome::IoFailure(d) => Err(SetupError::IoError(d)),
            },
        ),
        (Stage::ReprobeTool, Event::Probe(p)) => Some(
            match p {
                ProbeOutcome::Available => Ok(Stage::CheckVenv),
                ProbeOutcome::NotFound => Err(SetupError::UvNotFound),
                ProbeOutcome::Failed(d) => Err(SetupError::CommandFailed(d)),
                ProbeOutcome::IoFailure(d) => Err(SetupError::IoError(d)),
            },
        ),
        (Stage::InstallTool, Event::Command(c)) => Some(
            match c {
                CmdOutcome::Exited(ok, d) => if ok {
                    Ok(Stage::ReprobeTool)
                } else {
                    Err(SetupError::CommandFailed(d))
                },
                CmdOutcome::SpawnFailure(d) => Err(SetupError::IoError(d)),
            },
        ),
        (Stage::CheckVenv, Event::VenvPresent(present)) => Some(
            if present {
                Ok(Stage::QueryPackages)
            } else {
                Ok(Stage::CreateVenv)
            },
        ),
        (Stage::CreateVenv, Event::Command(c)) => Some(
            match c {
                CmdOutcome::Exited(ok, d) => if ok {
                    Ok(Stage::QueryPackages)
                } else {
                    Err(SetupError::VenvCreationFailed(d))
                },
                CmdOutcome::SpawnFailure(d) => Err(SetupError::IoError(d)),
            },
        ),
        (Stage::QueryPackages, Event::Listing(l)) => Some(
            if spec_requirements_satisfied(spec_listing_of(l)) {
                Ok(Stage::Ready)
            } else {
                Ok(Stage::InstallRequirements)
            },
        ),
        (Stage::InstallRequirements, Event::Command(c)) => Some(
            match c {
                CmdOutcome::Exited(ok, d) => if ok {
                    Ok(Stage::Ready)
                } else {
                    Err(SetupError::RequirementsInstallFailed(d))
                },
                CmdOutcome::SpawnFailure(d) => Err(SetupError::IoError(d)),
            },
        ),
        _ => None,
    }
}

/// One transition of the bootstrap: consume the outcome of the current
/// stage's action and move to the next stage, or stop with the terminal
/// error. Every stage failure is terminal: there is no retry and no
/// rollback, and a later run resumes by re-deriving each predicate.
pub fn step(stage: Stage, event: Event) -> (r: Result<Stage, SetupError>)
    requires
        event_fits(stage, event),
    ensures
        Some(r) == spec_step(stage, event),
{
    match (stage, event) {
        (Stage::ProbeTool, Event::Probe(p)) => match p {
            ProbeOutcome::Available => Ok(Stage::CheckVenv),
            ProbeOutcome::NotFound => Ok(Stage::InstallTool),
            ProbeOutcome::Failed(d) => Err(SetupError::CommandFailed(d)),
            ProbeOutcome::IoFailure(d) => Err(SetupError::IoError(d)),
        },
        (Stage::ReprobeTool, Event::Probe(p)) => match p {
            ProbeOutcome::Available => Ok(Stage::CheckVenv),
            ProbeOutcome::NotFound => Err(SetupError::UvNotFound),
            ProbeOutcome::Failed(d) => Err(SetupError::CommandFailed(d)),
            ProbeOutcome::IoFailure(d) => Err(SetupError::IoError(d)),
        },
        (Stage::InstallTool, Event::Command(c)) => match c {
            CmdOutcome::Exited(ok, d) => if ok {
                Ok(Stage::ReprobeTool)
            } else {
                Err(SetupError::CommandFailed(d))
            },
            CmdOutcome::SpawnFailure(d) => Err(SetupError::IoError(d)),
        },
        (Stage::CheckVenv, Event::VenvPresent(present)) => if present {
            Ok(Stage::QueryPackages)
        } else {
            Ok(Stage::CreateVenv)
        },
        (Stage::CreateVenv, Event::Command(c)) => match c {
            CmdOutcome::Exited(ok, d) => if ok {
                Ok(Stage::QueryPackages)
            } else {
                Err(SetupError::VenvCreationFailed(d))
            },
            CmdOutcome::SpawnFailure(d) => Err(SetupError::IoError(d)),
        },
        (Stage::QueryPackages, Event::Listing(l)) => {
            let satisfied = match &l {
                Some(v) => are_requirements_installed(Some(v)),
                None => are_requirements_installed(None),
            };
            if satisfied {
                Ok(Stage::Ready)
            } else {
                Ok(Stage::InstallRequirements)
            }
        },
        (Stage::InstallRequirements, Event::Command(c)) => match c {
            CmdOutcome::Exited(ok, d) => if ok {
                Ok(Stage::Ready)
            } else {
                Err(SetupError::RequirementsInstallFailed(d))
            },
            CmdOutcome::SpawnFailure(d) => Err(SetupError::IoError(d)),
        },
        _ => vstd::pervasive::unreached(),
    }
}

/// The stage every run starts from. Every run starts the machine from the
/// top; there is no saved progress to pick up.
pub fn initial_stage() -> (s: Stage)
    ensures
        s == Stage::ProbeTool,
{
    Stage::ProbeTool
}

/// The command a stage's action spawns, if its action is to spawn one.
/// The venv check is a filesystem test and the ready stage does nothing,
/// so neither names a command.
pub open spec fn spec_command_of(stage: Stage) -> Option<CommandModel> {
    match stage {
        Stage::ProbeTool | Stage::ReprobeTool => Some(spec_probe_command()),
        Stage::InstallTool => Some(spec_installer_command()),
        Stage::CheckVenv => None,
        Stage::CreateVenv => Some(spec_create_venv_command()),
        Stage::QueryPackages => Some(spec_query_listing_command()),
        Stage::InstallRequirements => Some(spec_install_requirements_command()),
        Stage::Ready => None,
    }
}

/// The command to spawn for a stage, if its action is to spawn one.
pub fn stage_command(stage: &Stage) -> (r: Option<CommandLine>)
    ensures
        match spec_command_of(*stage) {
            Some(m) => r matches Some(c) && c@ == m,
            None => r is None,
        },
{
    match stage {
        Stage::ProbeTool | Stage::ReprobeTool => Some(probe_command()),
        Stage::InstallTool => Some(installer_command()),
        Stage::CheckVenv => None,
        Stage::CreateVenv => Some(create_venv_command()),
        Stage::QueryPackages => Some(query_listing_command()),
        Stage::InstallRequirements => Some(install_requirements_command()),
        Stage::Ready => None,
    }
}

/// Classify a probe invocation's report. A clean "executable absent" is
/// the one condition that counts as "tool not installed"; a probe that ran
/// but failed, or failed to spawn for another reason, is an availability
/// failure and is kept distinct so it propagates as an error instead of
/// triggering installation.
pub fn probe_event(report: SpawnReport) -> (e: Event)
    ensures
        e == Event::Probe(
            if report.spawned {
                if report.exit_ok {
                    ProbeOutcome::Available
                } else {
                    ProbeOutcome::Failed(report.stderr)
                }
            } else {
                if report.not_found {
                    ProbeOutcome::NotFound
                } else {
                    ProbeOutcome::IoFailure(report.stderr)
                }
            },
        ),
{
    if report.spawned {
        if report.exit_ok {
            Event::Probe(ProbeOutcome::Available)
        } else {
            Event::Probe(ProbeOutcome::Failed(report.stderr))
        }
    } else {
        if report.not_found {
            Event::Probe(ProbeOutcome::NotFound)
        } else {
            Event::Probe(ProbeOutcome::IoFailure(report.stderr))
        }
    }
}

/// Classify a mutating command's report, keeping its captured diagnostics
/// with it either way.
pub fn command_event(report: SpawnReport) -> (e: Event)
    ensures
        e == Event::Command(
            if report.spawned {
                CmdOutcome::Exited(report.exit_ok, report.stderr)
            } else {
                CmdOutcome::SpawnFailure(report.stderr)
            },
        ),
{
    if report.spawned {
        Event::Command(CmdOutcome::Exited(report.exit_ok, report.stderr))
    } else {
        Event::Command(CmdOutcome::SpawnFailure(report.stderr))
    }
}

/// Classify the installed-package query's report: only a run that exited
/// successfully yields a listing; every other outcome is a failed query,
/// which the reconciler then treats as "nothing installed".
pub fn listing_event(report: SpawnReport) -> (e: Event)
    ensures
        e == Event::Listing(
            if report.spawned && report.exit_ok {
                Some(report.stdout)
            } else {
                None
            },
        ),
{
    if report.spawned && report.exit_ok {
        Event::Listing(Some(report.stdout))
    } else {
        Event::Listing(None)
    }
}

/// The completion predicate of the environment stage: the environment
/// exists exactly when its reserved directory is present on disk. The
/// caller supplies the filesystem fact; nothing validates that the
/// directory is a well-formed environment, so a partial or corrupted one
/// counts as present.
pub fn venv_exists(venv_dir_present: bool) -> (r: bool)
    ensures
        r == venv_dir_present,
{
    venv_dir_present
}

/// What probing the tool would report.
pub enum ToolState {
    /// The probe exits successfully.
    Available,
    /// The probe's executable is absent.
    Missing,
    /// The probe runs but fails, or cannot be spawned for another reason.
    Broken,
}

/// A picture of the outside world a bootstrap run acts against, assumed
/// unchanged for the length of the run: what each stage's check would
/// report and whether each mutating command would succeed.
pub struct EnvModel {
    /// What the first probe reports.
    pub tool: ToolState,
    /// Whether the installer exits successfully.
    pub install_ok: bool,
    /// What a re-probe after installing reports.
    pub tool_after_install: ToolState,
    /// Whether the virtual environment directory exists.
    pub venv_present: bool,
    /// Whether environment creation exits successfully.
    pub create_ok: bool,
    /// The standard output of the installed-package query when it
    /// succeeds, nothing for any kind of query failure.
    pub listing: Option<Seq<u8>>,
    /// Whether the batched requirements install exits successfully.
    pub install_reqs_ok: bool,
}

/// A probe outcome consistent with what the model says of the tool.
pub open spec fn probe_models(tool: ToolState, p: ProbeOutcome) -> bool {
    match tool {
        ToolState::Available => p is Available,
        ToolState::Missing => p is NotFound,
        ToolState::Broken => p is Failed || p is IoFailure,
    }
}

/// A command outcome consistent with whether the model says the command
/// succeeds.
pub open spec fn cmd_models(ok: bool, c: CmdOutcome) -> bool {
    match c {
        CmdOutcome::Exited(exited_ok, _) => exited_ok == ok,
        CmdOutcome::SpawnFailure(_) => !ok,
    }
}

/// An event consistent with what the model says the stage's action
/// observes.
pub open spec fn event_models(env: EnvModel, stage: Stage, event: Event) -> bool {
    match stage {
        Stage::ProbeTool => event matches Event::Probe(p) && probe_models(env.tool, p),
        Stage::ReprobeTool => event matches Event::Probe(p) && probe_models(
            env.tool_after_install,
            p,
        ),
        Stage::InstallTool => event matches Event::Command(c) && cmd_models(env.install_ok, c),
        Stage::CheckVenv => event matches Event::VenvPresent(b) && b == env.venv_present,
        Stage::CreateVenv => event matches Event::Command(c) && cmd_models(env.create_ok, c),
        Stage::QueryPackages => event matches Event::Listing(l) && spec_listing_of(l)
            == env.listing,
        Stage::InstallRequirements => event matches Event::Command(c) && cmd_models(
            env.install_reqs_ok,
            c,
        ),
        Stage::Ready => false,
    }
}

/// Where a run standing at `stage` goes next against environment `env`:
/// the following stage, or nothing when the run aborts there with an
/// error.
pub open spec fn env_next(env: EnvModel, stage: Stage) -> Option<Stage> {
    match stage {
        Stage::ProbeTool => match env.tool {
            ToolState::Available => Some(Stage::CheckVenv),
            ToolState::Missing => Some(Stage::InstallTool),
            ToolState::Broken => None,
        },
        Stage::InstallTool => if env.install_ok {
            Some(Stage::ReprobeTool)
        } else {
            None
        },
        Stage::ReprobeTool => match env.tool_after_install {
            ToolState::Available => Some(Stage::CheckVenv),
            ToolState::Missing => None,
            ToolState::Broken => None,
        },
        Stage::CheckVenv => if env.venv_present {
            Some(Stage::QueryPackages)
        } else {
            Some(Stage::CreateVenv)
        },
        Stage::CreateVenv => if env.create_ok {
            Some(Stage::QueryPackages)
        } else {
            None
        },
        Stage::QueryPackages => if spec_requirements_satisfied(env.listing) {
            Some(Stage::Ready)
        } else {
            Some(Stage::InstallRequirements)
        },
        Stage::InstallRequirements => if env.install_reqs_ok {
            Some(Stage::Ready)
        } else {
            None
        },
        Stage::Ready => None,
    }
}

/// The position of a stage in the bootstrap's strict order; every
/// transition moves strictly forward, which is what makes a run a finite
/// pass with no retry loop.
pub open spec fn stage_rank(stage: Stage) -> int {
    match stage {
        Stage::ProbeTool => 0,
        Stage::InstallTool => 1,
        Stage::ReprobeTool => 2,
        Stage::CheckVenv => 3,
        Stage::CreateVenv => 4,
        Stage::QueryPackages => 5,
        Stage::InstallRequirements => 6,
        Stage::Ready => 7,
    }
}

/// The stages a run visits from `stage` on against environment `env`,
/// ending either at the ready stage or at the stage whose action fails.
pub open spec fn run_trace_from(env: EnvModel, stage: Stage) -> Seq<Stage>
    decreases 7 - stage_rank(stage),
{
    match env_next(env, stage) {
        None => seq![stage],
        Some(s2) => seq![stage] + run_trace_from(env, s2),
    }
}

/// The stages one whole run visits against environment `env`.
pub open spec fn run_trace(env: EnvModel) -> Seq<Stage> {
    run_trace_from(env, Stage::ProbeTool)
}

/// A run completes when it reaches the ready stage.
pub open spec fn run_completes(env: EnvModel) -> bool {
    run_trace(env).last() == Stage::Ready
}

/// The stages whose action changes the outside world; the others only
/// observe it.
pub open spec fn mutating(stage: Stage) -> bool {
    stage is InstallTool || stage is CreateVenv || stage is InstallRequirements
}

/// All three completion predicates hold of the environment, as they do
/// after a successful run that nothing external disturbed.
pub open spec fn bootstrap_complete(env: EnvModel) -> bool {
    &&& env.tool is Available
    &&& env.venv_present
    &&& spec_requirements_satisfied(env.listing)
}

/// The transition function follows the environment model: starting from
/// any stage, feeding [`step`] the outcome the environment produces moves
/// the run exactly along [`env_next`], and the run stops with an error
/// precisely where the model has no next stage. This ties the executable
/// machine to the traces the lemmas below speak about.
pub proof fn lemma_step_follows_env(env: EnvModel, stage: Stage, event: Event)
    requires
        event_models(env, stage, event),
    ensures
        event_fits(stage, event),
        match env_next(env, stage) {
            Some(s2) => spec_step(stage, event) == Some(Ok::<Stage, SetupError>(s2)),
            None => spec_step(stage, event) matches Some(r) && r is Err,
        },
{
}

/// A run's trace from any stage starts at that stage and moves strictly
/// forward in the stage order.
proof fn lemma_trace_from_increasing(env: EnvModel, stage: Stage)
    ensures
        run_trace_from(env, stage).len() >= 1,
        run_trace_from(env, stage)[0] == stage,
        forall|a: int|
            0 <= a < run_trace_from(env, stage).len() ==> stage_rank(
                #[trigger] run_trace_from(env, stage)[a],
            ) >= stage_rank(stage),
        forall|a: int, b: int|
            0 <= a < b < run_trace_from(env, stage).len() ==> stage_rank(
                run_trace_from(env, stage)[a],
            ) < stage_rank(run_trace_from(env, stage)[b]),
    decreases 7 - stage_rank(stage),
{
    match env_next(env, stage) {
        None => {},
        Some(s2) => {
            lemma_trace_from_increasing(env, s2);
            assert(stage_rank(s2) > stage_rank(stage));
            let trace = run_trace_from(env, stage);
            let tail = run_trace_from(env, s2);
            assert(trace =~= seq![stage] + tail);
            assert forall|a: int, b: int| 0 <= a < b < trace.len() implies stage_rank(trace[a])
                < stage_rank(trace[b]) by {
                if a > 0 {
                    assert(trace[a] == tail[a - 1]);
                    assert(trace[b] == tail[b - 1]);
                } else {
                    assert(trace[b] == tail[b - 1]);
                    assert(stage_rank(tail[b - 1]) >= stage_rank(s2));
                }
            }
        },
    }
}

/// No stage is retried within a run: every run is one strictly forward
/// pass over the stage order, so any re-attempt after a failure happens
/// only in a later run, which re-derives every predicate from scratch.
pub proof fn lemma_no_retry_within_a_run(env: EnvModel)
    ensures
        forall|a: int, b: int|
            0 <= a < b < run_trace(env).len() ==> stage_rank(run_trace(env)[a]) < stage_rank(
                run_trace(env)[b],
            ),
{
    lemma_trace_from_increasing(env, Stage::ProbeTool);
}

/// Idempotence of the bootstrap: against an environment where every
/// completion predicate already holds — as after a successful run with no
/// external changes — a run only probes, checks and queries, performs no
/// mutating action, and completes.
pub proof fn lemma_bootstrap_idempotent(env: EnvModel)
    requires
        bootstrap_complete(env),
    ensures
        run_trace(env) =~= seq![Stage::ProbeTool, Stage::CheckVenv, Stage::QueryPackages, Stage::Ready],
        forall|i: int| 0 <= i < run_trace(env).len() ==> !mutating(#[trigger] run_trace(env)[i]),
        run_completes(env),
{
    assert(run_trace_from(env, Stage::Ready) =~= seq![Stage::Ready]);
    assert(run_trace_from(env, Stage::QueryPackages) =~= seq![Stage::QueryPackages, Stage::Ready]);
    assert(run_trace_from(env, Stage::CheckVenv) =~= seq![Stage::CheckVenv, Stage::QueryPackages, Stage::Ready]);
    assert(run_trace(env) =~= seq![Stage::ProbeTool, Stage::CheckVenv, Stage::QueryPackages, Stage::Ready]);
}

/// Resumability of the bootstrap: when environment creation fails, the run
/// stops there, after the tool stage was passed without reinstalling; a
/// later run against the mended environment re-attempts creation and, when
/// it succeeds, proceeds to the requirements stage — still without
/// touching the tool stage, whose predicate already holds.
pub proof fn lemma_bootstrap_resumes(failed: EnvModel, retry: EnvModel)
    requires
        failed.tool is Available,
        !failed.venv_present,
        !failed.create_ok,
        retry.tool is Available,
        !retry.venv_present,
        retry.create_ok,
    ensures
        run_trace(failed) =~= seq![Stage::ProbeTool, Stage::CheckVenv, Stage::CreateVenv],
        !run_completes(failed),
        !run_trace(failed).contains(Stage::InstallTool),
        run_trace(retry).contains(Stage::CreateVenv),
        run_trace(retry).contains(Stage::QueryPackages),
        !run_trace(retry).contains(Stage::InstallTool),
{
    assert(run_trace_from(failed, Stage::CreateVenv) =~= seq![Stage::CreateVenv]);
    assert(run_trace_from(failed, Stage::CheckVenv) =~= seq![Stage::CheckVenv, Stage::CreateVenv]);
    assert(run_trace(failed) =~= seq![Stage::ProbeTool, Stage::CheckVenv, Stage::CreateVenv]);
    assert forall|i: int| 0 <= i < run_trace(failed).len() implies run_trace(failed)[i]
        != Stage::InstallTool by {}

    let tail = run_trace_from(retry, Stage::QueryPackages);
    assert(run_trace_from(retry, Stage::Ready) =~= seq![Stage::Ready]);
    assert(run_trace_from(retry, Stage::InstallRequirements) =~= seq![Stage::InstallRequirements]
        || run_trace_from(retry, Stage::InstallRequirements) =~= seq![Stage::InstallRequirements, Stage::Ready]);
    assert(tail =~= seq![Stage::QueryPackages, Stage::Ready] || tail =~= seq![Stage::QueryPackages]
        + run_trace_from(retry, Stage::InstallRequirements));
    assert(run_trace_from(retry, Stage::CreateVenv) =~= seq![Stage::CreateVenv] + tail);
    assert(run_trace_from(retry, Stage::CheckVenv) =~= seq![Stage::CheckVenv, Stage::CreateVenv]
        + tail);
    assert(run_trace(retry) =~= seq![Stage::ProbeTool, Stage::CheckVenv, Stage::CreateVenv] + tail);
    assert(run_trace(retry)[2] == Stage::CreateVenv);
    assert(run_trace(retry)[3] == Stage::QueryPackages);
    assert forall|i: int| 0 <= i < run_trace(retry).len() implies run_trace(retry)[i]
        != Stage::InstallTool by {}
}

/// The conservative-missing policy: a failed installed-package query is
/// judged exactly like a missing package, so the run goes on to attempt
/// installation rather than silently reporting the requirements satisfied.
pub proof fn lemma_conservative_on_query_failure(event: Event)
    requires
        event matches Event::Listing(l) && l is None,
    ensures
        spec_step(Stage::QueryPackages, event) == Some(
            Ok::<Stage, SetupError>(Stage::InstallRequirements),
        ),
{
}

/// Install batching: whenever the requirements are not satisfied — one
/// package missing, all missing, or the query failed — the run moves to
/// the batched install, and the command issued there requests every
/// package of the requirement set, not just a missing subset.
pub proof fn lemma_install_batching(env: EnvModel)
    requires
        !spec_requirements_satisfied(env.listing),
    ensures
        env_next(env, Stage::QueryPackages) == Some(Stage::InstallRequirements),
        spec_command_of(Stage::InstallRequirements) matches Some(c) && forall|j: int|
            0 <= j < spec_requirements().len() ==> #[trigger] c.args.contains(
                spec_requirements()[j],
            ),
{
    let c = spec_install_requirements_command();
    assert forall|j: int| 0 <= j < spec_requirements().len() implies #[trigger] c.args.contains(
        spec_requirements()[j],
    ) by {
        assert(c.args[j + 2] == spec_requirements()[j]);
    }
}

} // verus!

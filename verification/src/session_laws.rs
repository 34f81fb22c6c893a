//! What the opening of a development shell comes to, and what it does on the way.

use vstd::prelude::*;
use vstd::utf8::*;

use crate::catalog_lock::{
    is_ephemeral_path,
    lockfile_path,
    BuildLockView,
    CatalogActionView,
    CatalogEventView,
};
use crate::dev_env::{
    dev_env,
    dev_env_moves_by_answers,
    DevEnvView,
    DevEnvWorld,
    PRINT_DEV_ENV,
};
use crate::develop::{disclosure, refusal, DevelopOptions, DEVELOP_NAME};
use crate::develop_error::{DevelopErrorView, DevelopFailure, DevelopFailureView};
use crate::develop_events::{
    DetectedEnvironment,
    DevelopActionView,
    DevelopEventView,
    LifecycleView,
    LoadedEnvironment,
};
use crate::ensure::{
    ensure_ends_only_with_lock,
    ensure_ends_with_lock,
    ensure_goes_on,
    ensure_moves_by_answers,
    ensure_run_is_driven_by_its_world,
    every_expression_is_scanned_in_its_turn,
    lock_is_the_lockfile_exactly_when_committed,
    EnsureInput,
    EnsureView,
    EnsureWorld,
};
use crate::error::CatalogLockError;
use crate::outside::utf8_lossy;
use crate::rcfile::{
    rcfile,
    rcfile_for,
    rcfile_moves_by_answers,
    rcfile_text,
    RcfileView,
    RcfileWorld,
};
use crate::session::{
    DevelopRun,
    DevelopView,
    EvaluationView,
    Job,
    DETECT_PURPOSE,
    RCFILE_FLAG,
    REFUSED_COMMAND,
};
use crate::target::{ExpressionBuildMetadata, PackageTarget, PackageTargetKind};

verus! {

/// What a run is started with.
pub struct DevelopInput {
    pub options: DevelopOptions,
    pub temp_dir: Vec<u8>,
}

/// What comes of each action that a run can ask for.
pub struct DevelopWorld {
    pub detected: Result<DetectedEnvironment, String>,
    pub loaded: Result<LoadedEnvironment, String>,
    pub chosen: Result<Seq<PackageTarget>, String>,
    pub git: Result<Option<String>, String>,
    pub catalog: EnsureWorld,
    pub url: Result<String, String>,
    pub common_prefetched: Result<(), String>,
    pub target_prefetched: Result<(), String>,
    pub evaluated: Result<Seq<Seq<u8>>, String>,
    pub dev_env: DevEnvWorld,
    pub rcfile: RcfileWorld,
    pub recorded: bool,
    pub flushed: bool,
    pub exec_error: std::io::Error,
}

impl DevelopWorld {
    /// Whether every question is answered: a package that is found has a target, a package
    /// that is evaluated has a derivation, and its one expression can be scanned or not.
    pub open spec fn answers(self) -> bool {
        &&& self.chosen matches Ok(targets) ==> targets.len() > 0
        &&& self.evaluated matches Ok(drv_paths) ==> drv_paths.len() > 0
        &&& self.catalog.scans.len() == 1
    }

    /// The event that answers the action of `run`.
    pub open spec fn answer(self, run: DevelopView) -> DevelopEventView {
        match run {
            DevelopView::Detecting { .. } => DevelopEventView::Detected(self.detected),
            DevelopView::Loading { .. } => DevelopEventView::Loaded(self.loaded),
            DevelopView::Choosing { .. } => DevelopEventView::Chosen(self.chosen),
            DevelopView::CheckingGit { .. } => DevelopEventView::GitChecked(self.git),
            DevelopView::Locking { run, .. } => DevelopEventView::Catalog(
                self.catalog.answer(run),
            ),
            DevelopView::FindingUrl { .. } => DevelopEventView::UrlFound(self.url),
            DevelopView::PrefetchingCommon(_) => DevelopEventView::Prefetched(
                self.common_prefetched,
            ),
            DevelopView::PrefetchingTarget(_) => DevelopEventView::Prefetched(
                self.target_prefetched,
            ),
            DevelopView::Evaluating(_) => DevelopEventView::Evaluated(self.evaluated),
            DevelopView::Printing { capture, .. } => match capture {
                DevEnvView::Printing { .. } => DevelopEventView::Printed(self.dev_env.printed),
                DevEnvView::Probing { .. } => DevelopEventView::Probed(self.dev_env.exists),
                DevEnvView::Creating { .. } => DevelopEventView::FileCreated(self.dev_env.created),
                _ => DevelopEventView::FileWritten(self.dev_env.written),
            },
            DevelopView::Rendering { render, .. } => match render {
                RcfileView::FindingHome { .. } => DevelopEventView::HomeFound(self.rcfile.home),
                RcfileView::Creating { .. } => DevelopEventView::FileCreated(self.rcfile.created),
                _ => DevelopEventView::FileWritten(self.rcfile.written),
            },
            DevelopView::Disclosing { .. } => DevelopEventView::Disclosed,
            DevelopView::Recording { .. } => DevelopEventView::Recorded(self.recorded),
            DevelopView::Flushing { .. } => DevelopEventView::Flushed(self.flushed),
            DevelopView::Executing { .. } => DevelopEventView::ExecFailed(self.exec_error),
            DevelopView::Ended(_) => DevelopEventView::Disclosed,
        }
    }
}

impl Job {
    /// What the catalog lock of the package is made from.
    pub open spec fn lock_input(self) -> EnsureInput {
        EnsureInput {
            dot_flox: self.loaded.dot_flox_path@,
            expressions_dir: self.loaded.expressions_dir@,
            files: seq![self.rel_file_path@],
            temp_dir: self.temp_dir@,
        }
    }
}

impl DevelopInput {
    /// The run that is started with this, before anything is known.
    pub open spec fn start(self) -> DevelopView {
        DevelopView::Detecting { options: self.options, temp_dir: self.temp_dir }
    }

    /// The run after `n` of its actions have been answered.
    pub open spec fn after(self, world: DevelopWorld, n: nat) -> DevelopView
        decreases n,
    {
        if n == 0 {
            self.start()
        } else {
            let run = self.after(world, (n - 1) as nat);
            run.step(world.answer(run))
        }
    }

    /// The package to develop: the first target, in an environment with project files, unless
    /// it is a manifest build.
    pub open spec fn job(self, world: DevelopWorld) -> Result<Job, DevelopFailureView> {
        match (world.detected, world.loaded, world.chosen) {
            (Err(reason), _, _) => Err(DevelopFailureView::Step(reason@)),
            (Ok(DetectedEnvironment::Managed { refusal }), _, _) => Err(
                DevelopFailureView::Environment(refusal@),
            ),
            (Ok(DetectedEnvironment::Path), Err(reason), _) => Err(
                DevelopFailureView::Step(reason@),
            ),
            (Ok(DetectedEnvironment::Path), Ok(_), Err(reason)) => Err(
                DevelopFailureView::Step(reason@),
            ),
            (Ok(DetectedEnvironment::Path), Ok(loaded), Ok(targets)) => match targets[0].kind {
                PackageTargetKind::ManifestBuild { .. } => Err(
                    DevelopFailureView::ManifestBuild(refusal(targets[0].name@)),
                ),
                PackageTargetKind::ExpressionBuild(expression) => Ok(
                    Job {
                        base_catalog_url_select: self.options.base_catalog_url_select,
                        temp_dir: self.temp_dir,
                        loaded,
                        name: targets[0].name,
                        rel_file_path: expression.rel_file_path,
                    },
                ),
            },
        }
    }

    /// The package and what refers to its expressions: git's reference where there is one.
    pub open spec fn tracked_job(self, world: DevelopWorld) -> Result<
        (Job, String),
        DevelopFailureView,
    > {
        match (self.job(world), world.git) {
            (Err(failure), _) => Err(failure),
            (Ok(_), Err(reason)) => Err(DevelopFailureView::Step(reason@)),
            (Ok(job), Ok(Some(git_ref))) => Ok((job, git_ref)),
            (Ok(job), Ok(None)) => Ok((job, job.loaded.expression_path_ref)),
        }
    }

    /// The package, what refers to its expressions, and the catalog lock that a build of it
    /// would consume.
    pub open spec fn locked_job(self, world: DevelopWorld) -> Result<
        (Job, String, BuildLockView),
        DevelopFailureView,
    > {
        match self.tracked_job(world) {
            Err(failure) => Err(failure),
            Ok((job, expression_ref)) => match job.lock_input().ensured(world.catalog) {
                Err(error) => Err(DevelopFailureView::CatalogLock(error)),
                Ok(lock) => Ok((job, expression_ref, lock)),
            },
        }
    }

    /// What the package is evaluated with.
    pub open spec fn evaluation(self, world: DevelopWorld) -> Result<
        EvaluationView,
        DevelopFailureView,
    > {
        match (self.locked_job(world), world.url) {
            (Err(failure), _) => Err(failure),
            (Ok(_), Err(reason)) => Err(DevelopFailureView::Step(reason@)),
            (Ok((job, expression_ref, lock)), Ok(base_nixpkgs_url)) => Ok(
                EvaluationView { job, expression_ref, lock, base_nixpkgs_url },
            ),
        }
    }

    /// The derivation that the package evaluates to, once what the evaluation uses is fetched.
    pub open spec fn derivation(self, world: DevelopWorld) -> Result<Seq<u8>, DevelopFailureView> {
        match (
            self.evaluation(world),
            world.common_prefetched,
            world.target_prefetched,
            world.evaluated,
        ) {
            (Err(failure), _, _, _) => Err(failure),
            (Ok(_), Err(reason), _, _) => Err(DevelopFailureView::Step(reason@)),
            (Ok(_), Ok(()), Err(reason), _) => Err(DevelopFailureView::Step(reason@)),
            (Ok(_), Ok(()), Ok(()), Err(reason)) => Err(DevelopFailureView::Step(reason@)),
            (Ok(_), Ok(()), Ok(()), Ok(drv_paths)) => Ok(drv_paths[0]),
        }
    }

    /// The script that the build environment is captured in.
    pub open spec fn env_script(self, world: DevelopWorld) -> Result<Seq<u8>, DevelopFailureView> {
        match (self.job(world), self.derivation(world)) {
            (Ok(job), Ok(_)) => match dev_env(job.name@, world.dev_env) {
                Err(error) => Err(DevelopFailureView::Shell(error)),
                Ok(path) => Ok(path),
            },
            (_, Err(failure)) => Err(failure),
            (Err(failure), _) => Err(failure),
        }
    }

    /// The rcfile that the shell is started with.
    pub open spec fn shell_rcfile(self, world: DevelopWorld) -> Result<
        Seq<u8>,
        DevelopFailureView,
    > {
        match self.env_script(world) {
            Err(failure) => Err(failure),
            Ok(_) => match rcfile(world.rcfile) {
                Err(error) => Err(DevelopFailureView::Shell(error)),
                Ok(path) => Ok(path),
            },
        }
    }

    /// Why the command ends without a shell: because of the first step that fails, the last
    /// of which is the start of the shell itself.
    pub open spec fn failure(self, world: DevelopWorld) -> DevelopFailureView {
        match self.shell_rcfile(world) {
            Err(failure) => failure,
            Ok(_) => DevelopFailureView::Exec(world.exec_error),
        }
    }

    /// Everything that is known of a run after `n` answers.
    spec fn reached(self, world: DevelopWorld, n: nat, run: DevelopView) -> bool {
        match run {
            DevelopView::Detecting { .. } => n == 0 && run == self.start(),
            DevelopView::Loading { options, temp_dir } => {
                &&& n == 1
                &&& options == self.options
                &&& temp_dir == self.temp_dir
                &&& world.detected == Ok::<_, String>(DetectedEnvironment::Path)
            },
            DevelopView::Choosing { options, temp_dir, loaded } => {
                &&& n == 2
                &&& options == self.options
                &&& temp_dir == self.temp_dir
                &&& world.detected == Ok::<_, String>(DetectedEnvironment::Path)
                &&& world.loaded == Ok::<_, String>(loaded)
            },
            DevelopView::CheckingGit { job } => {
                &&& n == 3
                &&& self.job(world) == Ok::<_, DevelopFailureView>(job)
            },
            DevelopView::Locking { job, expression_ref, run } => {
                &&& 4 <= n <= 8
                &&& self.tracked_job(world) == Ok::<_, DevelopFailureView>((job, expression_ref))
                &&& run == job.lock_input().after(world.catalog, (n - 4) as nat)
                &&& !(run is Ended)
            },
            DevelopView::FindingUrl { job, expression_ref, lock } => {
                &&& 5 <= n <= 9
                &&& self.locked_job(world) == Ok::<_, DevelopFailureView>(
                    (job, expression_ref, lock),
                )
            },
            DevelopView::PrefetchingCommon(evaluation) => {
                &&& 6 <= n <= 10
                &&& self.evaluation(world) == Ok::<_, DevelopFailureView>(evaluation)
            },
            DevelopView::PrefetchingTarget(evaluation) => {
                &&& 7 <= n <= 11
                &&& self.evaluation(world) == Ok::<_, DevelopFailureView>(evaluation)
                &&& world.common_prefetched is Ok
            },
            DevelopView::Evaluating(evaluation) => {
                &&& 8 <= n <= 12
                &&& self.evaluation(world) == Ok::<_, DevelopFailureView>(evaluation)
                &&& world.common_prefetched is Ok
                &&& world.target_prefetched is Ok
            },
            DevelopView::Printing { job, lock, capture } => {
                &&& self.held(world, job, lock)
                &&& self.derivation(world) is Ok
                &&& match capture {
                    DevEnvView::Printing { drv_path, pname, temp_dir } => {
                        &&& 9 <= n <= 13
                        &&& self.derivation(world) == Ok::<_, DevelopFailureView>(drv_path)
                        &&& pname == job.name@
                        &&& temp_dir == job.temp_dir@
                    },
                    DevEnvView::Probing { drv_path, pname, stderr } => {
                        &&& 10 <= n <= 14
                        &&& self.derivation(world) == Ok::<_, DevelopFailureView>(drv_path)
                        &&& world.dev_env.printed matches Ok(output)
                        &&& !output.success
                        &&& stderr == output.stderr
                        &&& pname == job.name@
                    },
                    DevEnvView::Creating { script, temp_dir } => {
                        &&& 10 <= n <= 14
                        &&& world.dev_env.printed matches Ok(output)
                        &&& output.success
                        &&& script == output.stdout
                        &&& temp_dir == job.temp_dir@
                    },
                    DevEnvView::Writing { script, path } => {
                        &&& 11 <= n <= 15
                        &&& world.dev_env.printed matches Ok(output)
                        &&& output.success
                        &&& script == output.stdout
                        &&& world.dev_env.created == Ok::<_, std::io::Error>(path)
                    },
                    DevEnvView::Ended(_) => false,
                }
            },
            DevelopView::Rendering { job, lock, render } => {
                &&& self.held(world, job, lock)
                &&& self.env_script(world) is Ok
                &&& match render {
                    RcfileView::FindingHome { env_script, pname, temp_dir } => {
                        &&& 12 <= n <= 16
                        &&& self.env_script(world) == Ok::<_, DevelopFailureView>(env_script)
                        &&& pname == job.name@
                        &&& temp_dir == job.temp_dir@
                    },
                    RcfileView::Creating { content, temp_dir } => {
                        &&& 13 <= n <= 17
                        &&& content == rcfile_for(
                            world.rcfile.home,
                            self.env_script(world)->Ok_0,
                            job.name@,
                        )
                        &&& temp_dir == job.temp_dir@
                    },
                    RcfileView::Writing { content, path } => {
                        &&& 14 <= n <= 18
                        &&& content == rcfile_for(
                            world.rcfile.home,
                            self.env_script(world)->Ok_0,
                            job.name@,
                        )
                        &&& world.rcfile.created == Ok::<_, std::io::Error>(path)
                    },
                    RcfileView::Ended(_) => false,
                }
            },
            DevelopView::Disclosing { text, lock, rcfile } => {
                &&& 15 <= n <= 19
                &&& self.ready(world, lock, rcfile)
                &&& self.job(world) matches Ok(job)
                &&& text == disclosure(job.name@)
            },
            DevelopView::Recording { lock, rcfile } => {
                &&& 16 <= n <= 20
                &&& self.ready(world, lock, rcfile)
            },
            DevelopView::Flushing { lock, rcfile } => {
                &&& 17 <= n <= 21
                &&& self.ready(world, lock, rcfile)
            },
            DevelopView::Executing { rcfile } => {
                &&& 18 <= n <= 22
                &&& self.shell_rcfile(world) == Ok::<_, DevelopFailureView>(rcfile)
            },
            DevelopView::Ended(failure) => n > 0 && failure == self.failure(world),
        }
    }

    spec fn held(self, world: DevelopWorld, job: Job, lock: BuildLockView) -> bool {
        &&& self.locked_job(world) matches Ok((locked_job, _, made))
        &&& locked_job == job
        &&& made == lock
    }

    spec fn ready(self, world: DevelopWorld, lock: BuildLockView, rcfile: Seq<u8>) -> bool {
        &&& self.locked_job(world) matches Ok((_, _, made))
        &&& made == lock
        &&& self.shell_rcfile(world) == Ok::<_, DevelopFailureView>(rcfile)
    }

    proof fn reaches(self, world: DevelopWorld, n: nat)
        requires
            world.answers(),
        ensures
            self.reached(world, n, self.after(world, n)),
        decreases n,
    {
        if n > 0 {
            let before = (n - 1) as nat;
            self.reaches(world, before);
            let run = self.after(world, before);
            if let DevelopView::Locking { job, run: lock_run, .. } = run {
                let input = job.lock_input();
                let steps = (before - 4) as nat;
                assert(input.after(world.catalog, steps + 1) == lock_run.step(
                    world.catalog.answer(lock_run),
                ));
                ensure_ends_only_with_lock(input, world.catalog, steps + 1);
                if steps + 1 >= 5 {
                    ensure_ends_with_lock(input, world.catalog, steps + 1);
                }
            }
        }
    }
}

impl DevelopView {
    /// The catalog lock that the run holds on to.
    pub open spec fn held_lock(self) -> Option<BuildLockView> {
        match self {
            DevelopView::FindingUrl { lock, .. } => Some(lock),
            DevelopView::PrefetchingCommon(evaluation) => Some(evaluation.lock),
            DevelopView::PrefetchingTarget(evaluation) => Some(evaluation.lock),
            DevelopView::Evaluating(evaluation) => Some(evaluation.lock),
            DevelopView::Printing { lock, .. } => Some(lock),
            DevelopView::Rendering { lock, .. } => Some(lock),
            DevelopView::Disclosing { lock, .. } => Some(lock),
            DevelopView::Recording { lock, .. } => Some(lock),
            DevelopView::Flushing { lock, .. } => Some(lock),
            _ => None,
        }
    }
}

/// However a run is answered, it ends with the first step that fails, after at most
/// twenty-three answers; a shell that does start never lets it come to the last of them.
pub proof fn develop_ends(input: DevelopInput, world: DevelopWorld, n: nat)
    requires
        world.answers(),
        n >= 23,
    ensures
        input.after(world, n) == DevelopView::Ended(input.failure(world)),
{
    input.reaches(world, n);
}

/// A run asks for nothing only when it has ended.
pub proof fn develop_goes_on(input: DevelopInput, world: DevelopWorld, n: nat)
    requires
        world.answers(),
    ensures
        input.after(world, n).action() is Nothing <==> input.after(world, n) is Ended,
        input.after(world, n).action() != DevelopActionView::Catalog(CatalogActionView::Nothing),
{
    input.reaches(world, n);
    if let DevelopView::Locking { job, .. } = input.after(world, n) {
        ensure_goes_on(job.lock_input(), world.catalog, (n - 4) as nat);
    }
}

/// An event moves a run exactly when it answers the run's action.
pub proof fn develop_moves_by_answers(
    input: DevelopInput,
    world: DevelopWorld,
    n: nat,
    event: DevelopEventView,
)
    requires
        world.answers(),
    ensures
        ({
            let run = input.after(world, n);
            run.step(event) != run <==> event.answers(run.action())
        }),
{
    input.reaches(world, n);
    match input.after(world, n) {
        DevelopView::Locking { run, .. } => {
            if let DevelopEventView::Catalog(event) = event {
                ensure_moves_by_answers(run, event);
            }
        },
        DevelopView::Printing { capture, .. } => {
            dev_env_moves_by_answers(capture, event);
        },
        DevelopView::Rendering { render, .. } => {
            rcfile_moves_by_answers(render, event);
        },
        _ => {},
    }
}

/// An environment without project files is refused as soon as it is found, in words that name
/// the command.
pub proof fn managed_environment_is_refused(input: DevelopInput, world: DevelopWorld, n: nat)
    requires
        world.answers(),
        world.detected matches Ok(DetectedEnvironment::Managed { .. }),
    ensures
        input.after(world, n).action() == if n == 0 {
            DevelopActionView::Detect {
                environment: input.options.environment,
                purpose: DETECT_PURPOSE@,
                command: REFUSED_COMMAND@,
            }
        } else {
            DevelopActionView::Nothing
        },
        world.detected matches Ok(DetectedEnvironment::Managed { refusal }) && input.failure(world)
            == DevelopFailureView::Environment(refusal@),
{
    input.reaches(world, n);
}

/// A manifest build is refused before anything is asked of git, locked, fetched or evaluated,
/// and no file is made for it.
pub proof fn manifest_build_is_refused(input: DevelopInput, world: DevelopWorld, n: nat)
    requires
        world.answers(),
        world.chosen matches Ok(targets) && targets[0].kind is ManifestBuild,
    ensures
        match input.after(world, n).action() {
            DevelopActionView::Detect { .. } => true,
            DevelopActionView::Load => true,
            DevelopActionView::Choose { .. } => true,
            DevelopActionView::Nothing => true,
            _ => false,
        },
        world.detected == Ok::<_, String>(DetectedEnvironment::Path) && world.loaded is Ok
            ==> input.failure(world) == DevelopFailureView::ManifestBuild(
            refusal(world.chosen->Ok_0[0].name@),
        ),
{
    input.reaches(world, n);
}

/// The package is evaluated under its own name, with the catalog lock that a build of it would
/// consume: the committed one as found, or an ephemeral one for the package's own expression.
pub proof fn evaluation_consumes_the_build_lock(input: DevelopInput, world: DevelopWorld, n: nat)
    requires
        world.answers(),
    ensures
        input.after(world, n).action() matches DevelopActionView::Evaluate {
            package,
            lockfile,
            expression_ref,
            base_nixpkgs_url,
            base_dir,
            cache_path,
            extra,
        } ==> {
            &&& input.evaluation(world) matches Ok(evaluation)
            &&& evaluation.job.lock_input().ensured(world.catalog) == Ok::<_, CatalogLockError>(
                evaluation.lock,
            )
            &&& lockfile == evaluation.lock.path
            &&& package == evaluation.job.name@
            &&& expression_ref == evaluation.expression_ref@
            &&& base_nixpkgs_url == evaluation.base_nixpkgs_url@
            &&& base_dir == evaluation.job.loaded.base_dir@
            &&& cache_path == evaluation.job.loaded.cache_path@
            &&& extra is None
        },
{
    input.reaches(world, n);
}

/// The environment that is captured is that of the derivation which the package evaluated to.
/// The same derivation is the one that is looked for, once printing its environment has failed.
pub proof fn the_evaluated_derivation_is_printed(input: DevelopInput, world: DevelopWorld, n: nat)
    requires
        world.answers(),
    ensures
        input.after(world, n).action() matches DevelopActionView::PrintDevEnv {
            subcommand,
            drv_path,
        } ==> {
            &&& subcommand == PRINT_DEV_ENV@
            &&& input.derivation(world) == Ok::<_, DevelopFailureView>(drv_path)
            &&& world.evaluated matches Ok(drv_paths)
            &&& drv_path == drv_paths[0]
        },
        input.after(world, n).action() matches DevelopActionView::Probe { path } ==> {
            &&& input.derivation(world) == Ok::<_, DevelopFailureView>(path)
            &&& world.evaluated matches Ok(drv_paths)
            &&& path == drv_paths[0]
            &&& world.dev_env.printed matches Ok(output)
            &&& !output.success
        },
{
    input.reaches(world, n);
}

/// Once the catalog lock is made, the run holds on to that very lock until what was recorded
/// has been sent off, unless it ends before. When the shell is to be started, and after that,
/// it holds no lock: the temporary file of an ephemeral one lives only as long as the command,
/// and not on under the shell that takes its place.
pub proof fn lock_is_held_until_the_shell(
    input: DevelopInput,
    world: DevelopWorld,
    n: nat,
    later: nat,
)
    requires
        world.answers(),
        n <= later,
        input.after(world, n).held_lock() is Some,
    ensures
        input.locked_job(world) matches Ok((_, _, lock)) && input.after(world, n).held_lock()
            == Some(lock),
        input.after(world, later).held_lock() == if input.after(world, later) is Ended
            || input.after(world, later).action() is Exec {
            None
        } else {
            input.after(world, n).held_lock()
        },
    decreases later - n,
{
    input.reaches(world, n);
    input.reaches(world, later);
    if n < later {
        let before = (later - 1) as nat;
        lock_is_held_until_the_shell(input, world, n, before);
        input.reaches(world, before);
    }
}

/// Opening a shell never writes to the project's own lock file. The temporary file for an
/// ephemeral lock is one whose name begins as it was asked to.
pub proof fn project_lock_is_left_alone(input: DevelopInput, world: DevelopWorld, n: nat)
    requires
        world.answers(),
        world.catalog.created matches Ok(file) ==> is_ephemeral_path(file.path),
    ensures
        input.after(world, n).action() matches DevelopActionView::Catalog(
            CatalogActionView::Write { path, .. },
        ) ==> (input.job(world) matches Ok(job) && path != lockfile_path(
            job.loaded.dot_flox_path@,
        )),
{
    input.reaches(world, n);
    if let DevelopView::Locking { job, .. } = input.after(world, n) {
        lock_is_the_lockfile_exactly_when_committed(
            job.lock_input(),
            world.catalog,
            (n - 4) as nat,
        );
    }
}

/// The shell is started only after the disclosure for the package has been shown and the
/// command's completion recorded and sent off, in this order and whether or not recording and
/// sending off succeed, and it is started with the rcfile that was made.
pub proof fn shell_starts_after_disclosure_and_record(
    input: DevelopInput,
    world: DevelopWorld,
    n: nat,
)
    requires
        world.answers(),
        input.after(world, n).action() is Exec,
    ensures
        n >= 3,
        input.job(world) matches Ok(job) && input.after(world, (n - 3) as nat).action()
            == (DevelopActionView::Disclose { text: disclosure(job.name@) }),
        input.after(world, (n - 2) as nat).action() == (DevelopActionView::Record {
            command: DEVELOP_NAME@,
            fields: LifecycleView { exit_code: 0, duration_ms: None, error_kind: None },
        }),
        input.after(world, (n - 1) as nat).action() is Flush,
        input.shell_rcfile(world) matches Ok(rcfile) && input.after(world, n).action() == (
        DevelopActionView::Exec { flag: RCFILE_FLAG@, rcfile }),
{
    input.reaches(world, n);
    input.reaches(world, (n - 1) as nat);
    input.reaches(world, (n - 2) as nat);
    input.reaches(world, (n - 3) as nat);
}

/// The disclosure, the record of the command's completion, sending it off and the start of the
/// shell come only after the rcfile has been made, the first of them directly after the rcfile
/// was written and each of the others directly after the one before it.
pub proof fn disclosure_and_record_follow_the_rcfile(
    input: DevelopInput,
    world: DevelopWorld,
    n: nat,
)
    requires
        world.answers(),
    ensures
        ({
            let since: nat = match input.after(world, n).action() {
                DevelopActionView::Disclose { .. } => 1,
                DevelopActionView::Record { .. } => 2,
                DevelopActionView::Flush => 3,
                DevelopActionView::Exec { .. } => 4,
                _ => 0,
            };
            since > 0 ==> {
                &&& n >= since
                &&& world.rcfile.written is Ok
                &&& input.job(world) matches Ok(job)
                &&& input.env_script(world) matches Ok(env_script)
                &&& input.shell_rcfile(world) matches Ok(rcfile)
                &&& input.after(world, (n - since) as nat).action() == (
                DevelopActionView::WriteFile {
                    path: rcfile,
                    contents: encode_utf8(rcfile_for(world.rcfile.home, env_script, job.name@)),
                })
            }
        }),
    decreases n,
{
    input.reaches(world, n);
    if n > 0 {
        let before = (n - 1) as nat;
        input.reaches(world, before);
        disclosure_and_record_follow_the_rcfile(input, world, before);
    }
}

/// Every file that the run itself writes is one of the two that were created for it, and holds
/// the environment as it was printed or the rcfile that sources it.
pub proof fn only_script_and_rcfile_are_written(input: DevelopInput, world: DevelopWorld, n: nat)
    requires
        world.answers(),
    ensures
        input.after(world, n).action() matches DevelopActionView::WriteFile { path, contents } ==> {
            ||| {
                &&& world.dev_env.created == Ok::<_, std::io::Error>(path)
                &&& world.dev_env.printed matches Ok(output)
                &&& output.success
                &&& contents == output.stdout
            }
            ||| {
                &&& world.rcfile.created == Ok::<_, std::io::Error>(path)
                &&& input.job(world) matches Ok(job)
                &&& input.env_script(world) matches Ok(env_script)
                &&& contents == encode_utf8(rcfile_for(world.rcfile.home, env_script, job.name@))
            }
        },
{
    input.reaches(world, n);
}

/// A run is driven by what comes of its actions: it starts from what it was asked for, and each
/// step is that of the event which tells what came of the action before it. The file for the env
/// script is the one created after printing, the file for the rcfile the one created after the
/// home directory was looked up.
pub proof fn develop_run_is_driven_by_its_world(input: DevelopInput, world: DevelopWorld, n: nat)
    requires
        world.chosen matches Ok(targets) ==> targets.len() > 0,
        world.evaluated matches Ok(drv_paths) ==> drv_paths.len() > 0,
        world.catalog.scans.len() == 1,
    ensures
        input.after(world, 0) == (DevelopView::Detecting {
            options: input.options,
            temp_dir: input.temp_dir,
        }),
        ({
            let run = input.after(world, n);
            let event = world.answer(run);
            &&& input.after(world, n + 1) == run.step(event)
            &&& match run.action() {
                DevelopActionView::Detect { .. } => event == DevelopEventView::Detected(
                    world.detected,
                ),
                DevelopActionView::Load => event == DevelopEventView::Loaded(world.loaded),
                DevelopActionView::Choose { .. } => event == DevelopEventView::Chosen(
                    world.chosen,
                ),
                DevelopActionView::CheckGit { .. } => event == DevelopEventView::GitChecked(
                    world.git,
                ),
                DevelopActionView::Catalog(asked) => {
                    &&& event matches DevelopEventView::Catalog(told)
                    &&& match asked {
                        CatalogActionView::Probe { .. } => told == CatalogEventView::Probed(
                            world.catalog.committed,
                        ),
                        CatalogActionView::Read { .. } => told == CatalogEventView::Read(
                            world.catalog.read,
                        ),
                        CatalogActionView::Scan { .. } => told == CatalogEventView::Scanned(
                            world.catalog.scans[0],
                        ),
                        CatalogActionView::Lock { .. } => told == CatalogEventView::Locked(
                            world.catalog.locked,
                        ),
                        CatalogActionView::CreateTemp { .. } => told
                            == CatalogEventView::TempCreated(world.catalog.created),
                        CatalogActionView::Write { .. } => told == CatalogEventView::Written(
                            world.catalog.written,
                        ),
                        CatalogActionView::Nothing => false,
                    }
                },
                DevelopActionView::FindUrl { .. } => event == DevelopEventView::UrlFound(world.url),
                DevelopActionView::PrefetchCommon => event == DevelopEventView::Prefetched(
                    world.common_prefetched,
                ),
                DevelopActionView::PrefetchTarget { .. } => event == DevelopEventView::Prefetched(
                    world.target_prefetched,
                ),
                DevelopActionView::Evaluate { .. } => event == DevelopEventView::Evaluated(
                    world.evaluated,
                ),
                DevelopActionView::PrintDevEnv { .. } => event == DevelopEventView::Printed(
                    world.dev_env.printed,
                ),
                DevelopActionView::Probe { .. } => event == DevelopEventView::Probed(
                    world.dev_env.exists,
                ),
                DevelopActionView::FindHome => event == DevelopEventView::HomeFound(
                    world.rcfile.home,
                ),
                DevelopActionView::CreateFile { .. } => {
                    &&& n >= 1
                    &&& match input.after(world, (n - 1) as nat).action() {
                        DevelopActionView::PrintDevEnv { .. } => event
                            == DevelopEventView::FileCreated(world.dev_env.created),
                        DevelopActionView::FindHome => event == DevelopEventView::FileCreated(
                            world.rcfile.created,
                        ),
                        _ => false,
                    }
                },
                DevelopActionView::WriteFile { .. } => {
                    &&& n >= 2
                    &&& match input.after(world, (n - 2) as nat).action() {
                        DevelopActionView::PrintDevEnv { .. } => event
                            == DevelopEventView::FileWritten(world.dev_env.written),
                        DevelopActionView::FindHome => event == DevelopEventView::FileWritten(
                            world.rcfile.written,
                        ),
                        _ => false,
                    }
                },
                DevelopActionView::Disclose { .. } => event == DevelopEventView::Disclosed,
                DevelopActionView::Record { .. } => event == DevelopEventView::Recorded(
                    world.recorded,
                ),
                DevelopActionView::Flush => event == DevelopEventView::Flushed(world.flushed),
                DevelopActionView::Exec { .. } => event == DevelopEventView::ExecFailed(
                    world.exec_error,
                ),
                DevelopActionView::Nothing => run is Ended && input.after(world, n + 1) == run,
            }
        }),
{
    input.reaches(world, n);
    if n >= 1 {
        input.reaches(world, (n - 1) as nat);
    }
    if n >= 2 {
        input.reaches(world, (n - 2) as nat);
    }
    if let DevelopView::Locking { job, .. } = input.after(world, n) {
        let k = (n - 4) as nat;
        ensure_goes_on(job.lock_input(), world.catalog, k);
        ensure_run_is_driven_by_its_world(job.lock_input(), world.catalog, k);
        every_expression_is_scanned_in_its_turn(job.lock_input(), world.catalog, k);
    }
}

/// The environment comes first: it is found as it was selected, then built and loaded, and the
/// package that was asked for is chosen by it. The first of these that fails ends the command
/// with its reason, and an environment without project files with its refusal.
pub proof fn environment_comes_first(input: DevelopInput, world: DevelopWorld)
    ensures
        input.after(world, 0).action() == (DevelopActionView::Detect {
            environment: input.options.environment,
            purpose: "Develop packages of"@,
            command: "develop"@,
        }),
        match world.detected {
            Err(reason) => input.after(world, 1) == DevelopView::Ended(
                DevelopFailureView::Step(reason@),
            ),
            Ok(DetectedEnvironment::Managed { refusal }) => input.after(world, 1)
                == DevelopView::Ended(DevelopFailureView::Environment(refusal@)),
            Ok(DetectedEnvironment::Path) => {
                &&& input.after(world, 1).action() == DevelopActionView::Load
                &&& match world.loaded {
                    Err(reason) => input.after(world, 2) == DevelopView::Ended(
                        DevelopFailureView::Step(reason@),
                    ),
                    Ok(loaded) => input.after(world, 2).action() == (DevelopActionView::Choose {
                        package: input.options.package@,
                        expression_ref: loaded.expression_path_ref@,
                    }),
                }
            },
        },
{
    let loading = input.after(world, 1);
    assert(input.after(world, 0) == input.start());
    assert(loading == input.after(world, 0).step(world.answer(input.after(world, 0))));
    assert(input.after(world, 2) == loading.step(world.answer(loading)));
}

/// The first target is the package: a manifest build is refused with the guidance for it, and an
/// expression build is checked against git, whole, with its own file, in the project's
/// directory. Then its catalog lock is looked for there.
pub proof fn first_target_is_the_package(
    input: DevelopInput,
    world: DevelopWorld,
    loaded: LoadedEnvironment,
)
    requires
        world.detected == Ok::<_, String>(DetectedEnvironment::Path),
        world.loaded == Ok::<_, String>(loaded),
        world.chosen matches Ok(targets) ==> targets.len() > 0,
    ensures
        match world.chosen {
            Err(reason) => input.after(world, 3) == DevelopView::Ended(
                DevelopFailureView::Step(reason@),
            ),
            Ok(targets) => match targets[0].kind {
                PackageTargetKind::ManifestBuild { .. } => input.after(world, 3)
                    == DevelopView::Ended(
                    DevelopFailureView::ManifestBuild(refusal(targets[0].name@)),
                ),
                PackageTargetKind::ExpressionBuild(expression) => {
                    &&& input.after(world, 3).action() == (DevelopActionView::CheckGit {
                        package: targets[0].name@,
                        rel_file_path: expression.rel_file_path@,
                        dir: loaded.dot_flox_path@,
                    })
                    &&& match world.git {
                        Err(reason) => input.after(world, 4) == DevelopView::Ended(
                            DevelopFailureView::Step(reason@),
                        ),
                        Ok(_) => input.after(world, 4).action() == DevelopActionView::Catalog(
                            CatalogActionView::Probe { path: lockfile_path(loaded.dot_flox_path@) },
                        ),
                    }
                },
            },
        },
{
    let detecting = input.after(world, 0);
    let loading = input.after(world, 1);
    let choosing = input.after(world, 2);
    let chosen = input.after(world, 3);
    assert(detecting == input.start());
    assert(loading == detecting.step(world.answer(detecting)));
    assert(choosing == loading.step(world.answer(loading)));
    assert(chosen == choosing.step(world.answer(choosing)));
    assert(input.after(world, 4) == chosen.step(world.answer(chosen)));
}

/// The catalog lock is made as a build of the package alone makes it: from the project's
/// directory, its directory of expressions, the package's own file and the directory for
/// temporary files, action by action. A lock that cannot be made ends the command with that
/// error; one that is made is followed by the search for the base nixpkgs that was selected.
pub proof fn lock_is_made_as_a_build_makes_it(
    input: DevelopInput,
    world: DevelopWorld,
    loaded: LoadedEnvironment,
    expression: ExpressionBuildMetadata,
    k: nat,
)
    requires
        world.detected == Ok::<_, String>(DetectedEnvironment::Path),
        world.loaded == Ok::<_, String>(loaded),
        world.chosen matches Ok(targets) && targets.len() > 0 && targets[0].kind
            == PackageTargetKind::ExpressionBuild(expression),
        world.git is Ok,
        world.catalog.scans.len() == 1,
    ensures
        ({
            let build = EnsureInput {
                dot_flox: loaded.dot_flox_path@,
                expressions_dir: loaded.expressions_dir@,
                files: seq![expression.rel_file_path@],
                temp_dir: input.temp_dir@,
            };
            let before = build.after(world.catalog, (k - 1) as nat);
            (k == 0 || !(before is Ended)) ==> match build.after(world.catalog, k) {
                EnsureView::Ended(Err(error)) => input.after(world, 4 + k) == DevelopView::Ended(
                    DevelopFailureView::CatalogLock(error),
                ),
                EnsureView::Ended(Ok(lock)) => {
                    &&& input.after(world, 4 + k).action() == (DevelopActionView::FindUrl {
                        select: input.options.base_catalog_url_select,
                    })
                    &&& input.after(world, 4 + k).held_lock() == Some(lock)
                },
                making => input.after(world, 4 + k).action() == DevelopActionView::Catalog(
                    making.action(),
                ),
            }
        }),
{
    let job = input.job(world)->Ok_0;
    let expression_ref = input.tracked_job(world)->Ok_0.1;
    let build = job.lock_input();
    let at = DevelopView::locking(job, expression_ref, build.after(world.catalog, k));
    if k == 0 {
        let detecting = input.after(world, 0);
        let loading = input.after(world, 1);
        let choosing = input.after(world, 2);
        let chosen = input.after(world, 3);
        assert(detecting == input.start());
        assert(loading == detecting.step(world.answer(detecting)));
        assert(choosing == loading.step(world.answer(loading)));
        assert(chosen == choosing.step(world.answer(choosing)));
        assert(input.after(world, 4) == chosen.step(world.answer(chosen)));
        assert(build.after(world.catalog, 0) == build.start());
        assert(input.after(world, 4) == at);
    } else {
        let before = (k - 1) as nat;
        if !(build.after(world.catalog, before) is Ended) {
            ensure_ended_before(build, world.catalog, before);
            input.locks_at(world, job, expression_ref, before);
            let run = input.after(world, 4 + before);
            let making = build.after(world.catalog, before);
            assert(build.after(world.catalog, k) == making.step(world.catalog.answer(making)));
            assert(input.after(world, 4 + k) == run.step(world.answer(run)));
            assert(input.after(world, 4 + k) == at);
        }
    }
}

/// A run that has not ended had not ended before either.
proof fn ensure_ended_before(input: EnsureInput, world: EnsureWorld, n: nat)
    requires
        world.scans.len() == input.files.len(),
        !(input.after(world, n) is Ended),
    ensures
        forall|j: nat| j <= n ==> !(#[trigger] input.after(world, j) is Ended),
    decreases n,
{
    if n > 0 {
        let before = (n - 1) as nat;
        ensure_run_is_driven_by_its_world(input, world, before);
        assert(!(input.after(world, before) is Ended));
        ensure_ended_before(input, world, before);
    }
}

impl DevelopInput {
    proof fn locks_at(self, world: DevelopWorld, job: Job, expression_ref: String, k: nat)
        requires
            world.chosen matches Ok(targets) && targets.len() > 0,
            world.catalog.scans.len() == 1,
            self.tracked_job(world) == Ok::<_, DevelopFailureView>((job, expression_ref)),
            forall|j: nat|
                j <= k ==> !(#[trigger] job.lock_input().after(world.catalog, j) is Ended),
        ensures
            self.after(world, 4 + k) == (DevelopView::Locking {
                job,
                expression_ref,
                run: job.lock_input().after(world.catalog, k),
            }),
        decreases k,
    {
        let build = job.lock_input();
        if k == 0 {
            let detecting = self.after(world, 0);
            let loading = self.after(world, 1);
            let choosing = self.after(world, 2);
            let chosen = self.after(world, 3);
            assert(detecting == self.start());
            assert(loading == detecting.step(world.answer(detecting)));
            assert(choosing == loading.step(world.answer(loading)));
            assert(chosen == choosing.step(world.answer(choosing)));
            assert(self.after(world, 4) == chosen.step(world.answer(chosen)));
            assert(build.after(world.catalog, 0) == build.start());
        } else {
            let before = (k - 1) as nat;
            self.locks_at(world, job, expression_ref, before);
            let run = self.after(world, 4 + before);
            let making = build.after(world.catalog, before);
            assert(build.after(world.catalog, k) == making.step(world.catalog.answer(making)));
            assert(self.after(world, 4 + k) == run.step(world.answer(run)));
            assert(!(build.after(world.catalog, k) is Ended));
        }
    }
}

/// The package is evaluated by git's reference to its expressions wherever there is one, so that
/// only tracked files are seen, and by their path only where there is none, whatever the options.
pub proof fn gits_reference_is_evaluated(input: DevelopInput, world: DevelopWorld, n: nat)
    requires
        world.chosen matches Ok(targets) ==> targets.len() > 0,
        world.evaluated matches Ok(drv_paths) ==> drv_paths.len() > 0,
        world.catalog.scans.len() == 1,
    ensures
        input.after(world, n).action() matches DevelopActionView::Evaluate {
            expression_ref,
            ..
        } ==> match world.git {
            Ok(Some(git_ref)) => expression_ref == git_ref@,
            Ok(None) => world.loaded matches Ok(loaded) && expression_ref
                == loaded.expression_path_ref@,
            Err(_) => false,
        },
{
    input.reaches(world, n);
}

/// Once the lock is there, the base nixpkgs is found, what every evaluation uses and what this
/// one uses are fetched, the package is evaluated, and the environment of the first derivation
/// is printed. The first of these that fails ends the command with its reason. The evaluation is
/// given the project's directories, git's reference where there is one, the base nixpkgs that
/// was found, the package by its name and the path of the lock that a build consumes.
pub proof fn evaluation_follows_the_lock(
    input: DevelopInput,
    world: DevelopWorld,
    n: nat,
    loaded: LoadedEnvironment,
    target: PackageTarget,
    expression: ExpressionBuildMetadata,
    lock: BuildLockView,
)
    requires
        world.evaluated matches Ok(drv_paths) ==> drv_paths.len() > 0,
        world.catalog.scans.len() == 1,
        world.loaded == Ok::<_, String>(loaded),
        world.chosen matches Ok(targets) && targets.len() > 0 && targets[0] == target,
        target.kind == PackageTargetKind::ExpressionBuild(expression),
        (EnsureInput {
            dot_flox: loaded.dot_flox_path@,
            expressions_dir: loaded.expressions_dir@,
            files: seq![expression.rel_file_path@],
            temp_dir: input.temp_dir@,
        }).after(world.catalog, 5) == EnsureView::Ended(Ok(lock)),
        input.after(world, n).action() is FindUrl,
    ensures
        match world.url {
            Err(reason) => input.after(world, n + 1) == DevelopView::Ended(
                DevelopFailureView::Step(reason@),
            ),
            Ok(url) => {
                &&& input.after(world, n + 1).action() == DevelopActionView::PrefetchCommon
                &&& match world.common_prefetched {
                    Err(reason) => input.after(world, n + 2) == DevelopView::Ended(
                        DevelopFailureView::Step(reason@),
                    ),
                    Ok(()) => {
                        &&& input.after(world, n + 2).action() == (
                        DevelopActionView::PrefetchTarget {
                            package: target.name@,
                            rel_file_path: expression.rel_file_path@,
                            base_nixpkgs_url: url@,
                        })
                        &&& match world.target_prefetched {
                            Err(reason) => input.after(world, n + 3) == DevelopView::Ended(
                                DevelopFailureView::Step(reason@),
                            ),
                            Ok(()) => {
                                &&& input.after(world, n + 3).action() == (
                                DevelopActionView::Evaluate {
                                    base_dir: loaded.base_dir@,
                                    expression_ref: match world.git->Ok_0 {
                                        Some(git_ref) => git_ref@,
                                        None => loaded.expression_path_ref@,
                                    },
                                    cache_path: loaded.cache_path@,
                                    base_nixpkgs_url: url@,
                                    package: target.name@,
                                    lockfile: lock.path,
                                    extra: None,
                                })
                                &&& match world.evaluated {
                                    Err(reason) => input.after(world, n + 4) == DevelopView::Ended(
                                        DevelopFailureView::Step(reason@),
                                    ),
                                    Ok(drv_paths) => input.after(world, n + 4).action() == (
                                    DevelopActionView::PrintDevEnv {
                                        subcommand: "print-dev-env"@,
                                        drv_path: drv_paths[0],
                                    }),
                                }
                            },
                        }
                    },
                }
            },
        },
{
    input.reaches(world, n);
    let job = input.job(world)->Ok_0;
    ensure_ends_with_lock(job.lock_input(), world.catalog, 5);
    let finding = input.after(world, n);
    let common = input.after(world, n + 1);
    let target_next = input.after(world, n + 2);
    let evaluating = input.after(world, n + 3);
    assert(common == finding.step(world.answer(finding)));
    assert(target_next == common.step(world.answer(common)));
    assert(evaluating == target_next.step(world.answer(target_next)));
    assert(input.after(world, n + 4) == evaluating.step(world.answer(evaluating)));
}

/// The environment that was printed is written, as it was printed, into a file created in the
/// directory for temporary files, and then the rcfile is begun. What keeps it from that ends the
/// command with the error for it, which names the first target and tells nix's own words only
/// where the derivation is still there.
pub proof fn printed_environment_becomes_the_script(
    input: DevelopInput,
    world: DevelopWorld,
    n: nat,
    drv_path: Seq<u8>,
)
    requires
        world.chosen matches Ok(targets) ==> targets.len() > 0,
        world.evaluated matches Ok(drv_paths) ==> drv_paths.len() > 0,
        world.catalog.scans.len() == 1,
        input.after(world, n).action() == (DevelopActionView::PrintDevEnv {
            subcommand: "print-dev-env"@,
            drv_path,
        }),
    ensures
        match world.dev_env.printed {
            Err(error) => input.after(world, n + 1) == DevelopView::Ended(
                DevelopFailureView::Shell(DevelopErrorView::CallPrintDevEnv(error)),
            ),
            Ok(output) => if output.success {
                &&& input.after(world, n + 1).action() == (DevelopActionView::CreateFile {
                    dir: input.temp_dir@,
                })
                &&& match world.dev_env.created {
                    Err(error) => input.after(world, n + 2) == DevelopView::Ended(
                        DevelopFailureView::Shell(DevelopErrorView::CreateEnvScriptFile(error)),
                    ),
                    Ok(path) => {
                        &&& input.after(world, n + 2).action() == (DevelopActionView::WriteFile {
                            path,
                            contents: output.stdout,
                        })
                        &&& match world.dev_env.written {
                            Err(error) => input.after(world, n + 3) == DevelopView::Ended(
                                DevelopFailureView::Shell(
                                    DevelopErrorView::CreateEnvScriptFile(error),
                                ),
                            ),
                            Ok(()) => input.after(world, n + 3).action()
                                == DevelopActionView::FindHome,
                        }
                    },
                }
            } else {
                &&& input.after(world, n + 1).action() == (DevelopActionView::Probe {
                    path: drv_path,
                })
                &&& input.after(world, n + 2) == DevelopView::Ended(
                    DevelopFailureView::Shell(
                        if world.dev_env.exists {
                            DevelopErrorView::PrintDevEnv {
                                pname: world.chosen->Ok_0[0].name@,
                                stderr: utf8_lossy(output.stderr),
                            }
                        } else {
                            DevelopErrorView::DerivationGarbageCollected {
                                pname: world.chosen->Ok_0[0].name@,
                            }
                        },
                    ),
                )
            },
        },
{
    input.reaches(world, n);
    let printing = input.after(world, n);
    let second = input.after(world, n + 1);
    let third = input.after(world, n + 2);
    assert(second == printing.step(world.answer(printing)));
    assert(third == second.step(world.answer(second)));
    assert(input.after(world, n + 3) == third.step(world.answer(third)));
}

/// The env script that the rcfile sources is the file that was created for it, into which what
/// nix printed was written.
pub proof fn env_script_is_the_created_file(input: DevelopInput, world: DevelopWorld)
    ensures
        input.env_script(world) matches Ok(path) ==> {
            &&& world.dev_env.created == Ok::<_, std::io::Error>(path)
            &&& world.dev_env.written is Ok
            &&& world.dev_env.printed matches Ok(output)
            &&& output.success
        },
{
}

/// The rcfile sources the user's configuration where the home directory is known, then the env
/// script by the path of its file, and names the first target in the prompt. It is written into
/// a file created in the directory for temporary files. Then the disclosure for the package is
/// shown, the completion of the command is recorded and sent off, whether or not these succeed,
/// and the shell is started with that file.
pub proof fn shell_follows_the_rcfile(
    input: DevelopInput,
    world: DevelopWorld,
    n: nat,
    script: Seq<u8>,
    name: Seq<char>,
)
    requires
        world.chosen matches Ok(targets) && targets.len() > 0 && targets[0].name@ == name,
        world.evaluated matches Ok(drv_paths) ==> drv_paths.len() > 0,
        world.catalog.scans.len() == 1,
        world.dev_env.created == Ok::<_, std::io::Error>(script),
        input.after(world, n).action() is FindHome,
    ensures
        input.after(world, n + 1).action() == (DevelopActionView::CreateFile {
            dir: input.temp_dir@,
        }),
        match world.rcfile.created {
            Err(error) => input.after(world, n + 2) == DevelopView::Ended(
                DevelopFailureView::Shell(DevelopErrorView::CreateRcFile(error)),
            ),
            Ok(path) => {
                &&& input.after(world, n + 2).action() == (DevelopActionView::WriteFile {
                    path,
                    contents: encode_utf8(
                        rcfile_text(
                            match world.rcfile.home {
                                Some(home) => Some(utf8_lossy(home)),
                                None => None,
                            },
                            utf8_lossy(script),
                            name,
                        ),
                    ),
                })
                &&& match world.rcfile.written {
                    Err(error) => input.after(world, n + 3) == DevelopView::Ended(
                        DevelopFailureView::Shell(DevelopErrorView::CreateRcFile(error)),
                    ),
                    Ok(()) => {
                        &&& input.after(world, n + 3).action() == (DevelopActionView::Disclose {
                            text: disclosure(name),
                        })
                        &&& input.after(world, n + 4).action() == (DevelopActionView::Record {
                            command: "develop"@,
                            fields: LifecycleView {
                                exit_code: 0,
                                duration_ms: None,
                                error_kind: None,
                            },
                        })
                        &&& input.after(world, n + 5).action() == DevelopActionView::Flush
                        &&& input.after(world, n + 6).action() == (DevelopActionView::Exec {
                            flag: "--rcfile"@,
                            rcfile: path,
                        })
                        &&& input.after(world, n + 7) == DevelopView::Ended(
                            DevelopFailureView::Exec(world.exec_error),
                        )
                    },
                }
            },
        },
{
    input.reaches(world, n);
    env_script_is_the_created_file(input, world);
    let finding = input.after(world, n);
    let creating = input.after(world, n + 1);
    let writing = input.after(world, n + 2);
    let disclosing = input.after(world, n + 3);
    let recording = input.after(world, n + 4);
    let flushing = input.after(world, n + 5);
    let executing = input.after(world, n + 6);
    assert(creating == finding.step(world.answer(finding)));
    assert(writing == creating.step(world.answer(creating)));
    assert(disclosing == writing.step(world.answer(writing)));
    assert(recording == disclosing.step(world.answer(disclosing)));
    assert(flushing == recording.step(world.answer(recording)));
    assert(executing == flushing.step(world.answer(flushing)));
    assert(input.after(world, n + 7) == executing.step(world.answer(executing)));
}

/// What a run that has ended stands for is what it ended with.
pub proof fn ended_develop_stands_for_its_end(failure: DevelopFailure)
    ensures
        DevelopRun::Ended(failure)@ == DevelopView::Ended(failure@),
        DevelopRun::Ended(failure)@.action() == DevelopActionView::Nothing,
{
}

} // verus!

//! The opening of a development shell, from the command's options to the shell.

use vstd::prelude::*;
use vstd::utf8::*;

use crate::catalog_lock::{BuildCatalogLock, BuildLockView};
use crate::dev_env::{print_failure, DevEnvRun, DevEnvView};
use crate::develop::{
    disclosure,
    refusal,
    BaseCatalogUrlSelect,
    Develop,
    DevelopOptions,
    DEVELOP_NAME,
};
use crate::develop_error::{DevelopFailure, DevelopFailureView};
use crate::develop_events::{
    DetectedEnvironment,
    DevelopAction,
    DevelopActionView,
    DevelopEvent,
    DevelopEventView,
    LifecycleFields,
    LifecycleView,
    LoadedEnvironment,
};
use crate::ensure::{EnsureRun, EnsureView};
use crate::rcfile::{decoded, plain_paths, rcfile_text, RcfileRun, RcfileView};
use crate::target::{PackageTarget, PackageTargetKind};

verus! {

/// What an environment is detected for, as its user is told.
pub const DETECT_PURPOSE: &'static str = "Develop packages of";

/// The command that is refused where an environment has no project files, as its user is told.
pub const REFUSED_COMMAND: &'static str = "develop";

/// The flag that hands bash its rcfile.
pub const RCFILE_FLAG: &'static str = "--rcfile";

/// A package that a development shell is being opened for.
#[derive(Debug)]
pub struct Job {
    pub base_catalog_url_select: Option<BaseCatalogUrlSelect>,
    /// Where temporary files go.
    pub temp_dir: Vec<u8>,
    pub loaded: LoadedEnvironment,
    pub name: String,
    pub rel_file_path: Vec<u8>,
}

/// What an evaluation needs.
#[derive(Debug)]
pub struct Evaluation {
    pub job: Job,
    /// What refers to the expressions.
    pub expression_ref: String,
    pub lock: BuildCatalogLock,
    pub base_nixpkgs_url: String,
}

/// What an [Evaluation] stands for.
pub struct EvaluationView {
    pub job: Job,
    pub expression_ref: String,
    pub lock: BuildLockView,
    pub base_nixpkgs_url: String,
}

impl View for Evaluation {
    type V = EvaluationView;

    open spec fn view(&self) -> EvaluationView {
        EvaluationView {
            job: self.job,
            expression_ref: self.expression_ref,
            lock: self.lock@,
            base_nixpkgs_url: self.base_nixpkgs_url,
        }
    }
}

/// The opening of a development shell, as far as it has come. The catalog lock is held on to
/// from the time it is there, so that its temporary file, if it is in one, outlasts all that
/// reads it. It is given up before the shell is started: a shell takes the place of this
/// process, and nothing could remove the file after that.
#[derive(Debug)]
pub enum DevelopRun {
    /// The environment is to be found.
    Detecting { options: DevelopOptions, temp_dir: Vec<u8> },
    /// The environment is to be built and loaded.
    Loading { options: DevelopOptions, temp_dir: Vec<u8> },
    /// The package's target is to be found.
    Choosing { options: DevelopOptions, temp_dir: Vec<u8>, loaded: LoadedEnvironment },
    /// Git is to be asked about the expressions.
    CheckingGit { job: Job },
    /// The catalog lock is being made.
    Locking { job: Job, expression_ref: String, run: EnsureRun },
    /// The base nixpkgs is to be found.
    FindingUrl { job: Job, expression_ref: String, lock: BuildCatalogLock },
    /// What every evaluation uses is to be fetched.
    PrefetchingCommon(Evaluation),
    /// What this evaluation uses is to be fetched.
    PrefetchingTarget(Evaluation),
    /// The package is to be evaluated.
    Evaluating(Evaluation),
    /// The build environment is being captured.
    Printing { job: Job, lock: BuildCatalogLock, capture: DevEnvRun },
    /// The rcfile is being made.
    Rendering { job: Job, lock: BuildCatalogLock, render: RcfileRun },
    /// The disclosure is to be shown.
    Disclosing { text: String, lock: BuildCatalogLock, rcfile: Vec<u8> },
    /// The completion of the command is to be recorded.
    Recording { lock: BuildCatalogLock, rcfile: Vec<u8> },
    /// The record is to be sent off.
    Flushing { lock: BuildCatalogLock, rcfile: Vec<u8> },
    /// The catalog lock is given up, and the shell is to be started.
    Executing { rcfile: Vec<u8> },
    /// There will be no shell.
    Ended(DevelopFailure),
}

/// What a [DevelopRun] stands for.
#[verifier::ext_equal]
pub enum DevelopView {
    Detecting { options: DevelopOptions, temp_dir: Vec<u8> },
    Loading { options: DevelopOptions, temp_dir: Vec<u8> },
    Choosing { options: DevelopOptions, temp_dir: Vec<u8>, loaded: LoadedEnvironment },
    CheckingGit { job: Job },
    Locking { job: Job, expression_ref: String, run: EnsureView },
    FindingUrl { job: Job, expression_ref: String, lock: BuildLockView },
    PrefetchingCommon(EvaluationView),
    PrefetchingTarget(EvaluationView),
    Evaluating(EvaluationView),
    Printing { job: Job, lock: BuildLockView, capture: DevEnvView },
    Rendering { job: Job, lock: BuildLockView, render: RcfileView },
    Disclosing { text: Seq<char>, lock: BuildLockView, rcfile: Seq<u8> },
    Recording { lock: BuildLockView, rcfile: Seq<u8> },
    Flushing { lock: BuildLockView, rcfile: Seq<u8> },
    Executing { rcfile: Seq<u8> },
    Ended(DevelopFailureView),
}

impl View for DevelopRun {
    type V = DevelopView;

    open spec fn view(&self) -> DevelopView {
        match *self {
            DevelopRun::Detecting { options, temp_dir } => DevelopView::Detecting {
                options,
                temp_dir,
            },
            DevelopRun::Loading { options, temp_dir } => DevelopView::Loading {
                options,
                temp_dir,
            },
            DevelopRun::Choosing { options, temp_dir, loaded } => DevelopView::Choosing {
                options,
                temp_dir,
                loaded,
            },
            DevelopRun::CheckingGit { job } => DevelopView::CheckingGit { job },
            DevelopRun::Locking { job, expression_ref, run } => DevelopView::Locking {
                job,
                expression_ref,
                run: run@,
            },
            DevelopRun::FindingUrl { job, expression_ref, lock } => DevelopView::FindingUrl {
                job,
                expression_ref,
                lock: lock@,
            },
            DevelopRun::PrefetchingCommon(evaluation) => DevelopView::PrefetchingCommon(
                evaluation@,
            ),
            DevelopRun::PrefetchingTarget(evaluation) => DevelopView::PrefetchingTarget(
                evaluation@,
            ),
            DevelopRun::Evaluating(evaluation) => DevelopView::Evaluating(evaluation@),
            DevelopRun::Printing { job, lock, capture } => DevelopView::Printing {
                job,
                lock: lock@,
                capture: capture@,
            },
            DevelopRun::Rendering { job, lock, render } => DevelopView::Rendering {
                job,
                lock: lock@,
                render: render@,
            },
            DevelopRun::Disclosing { text, lock, rcfile } => DevelopView::Disclosing {
                text: text@,
                lock: lock@,
                rcfile: rcfile@,
            },
            DevelopRun::Recording { lock, rcfile } => DevelopView::Recording {
                lock: lock@,
                rcfile: rcfile@,
            },
            DevelopRun::Flushing { lock, rcfile } => DevelopView::Flushing {
                lock: lock@,
                rcfile: rcfile@,
            },
            DevelopRun::Executing { rcfile } => DevelopView::Executing { rcfile: rcfile@ },
            DevelopRun::Ended(failure) => DevelopView::Ended(failure@),
        }
    }
}

impl DevelopView {
    /// The run that ends because a step failed for the reason given.
    pub open spec fn failed(reason: String) -> DevelopView {
        DevelopView::Ended(DevelopFailureView::Step(reason@))
    }

    /// The run with the target found: a manifest build is refused.
    pub open spec fn chosen(
        options: DevelopOptions,
        temp_dir: Vec<u8>,
        loaded: LoadedEnvironment,
        target: PackageTarget,
    ) -> DevelopView {
        match target.kind {
            PackageTargetKind::ManifestBuild { .. } => DevelopView::Ended(
                DevelopFailureView::ManifestBuild(refusal(target.name@)),
            ),
            PackageTargetKind::ExpressionBuild(expression) => DevelopView::CheckingGit {
                job: Job {
                    base_catalog_url_select: options.base_catalog_url_select,
                    temp_dir,
                    loaded,
                    name: target.name,
                    rel_file_path: expression.rel_file_path,
                },
            },
        }
    }

    /// The run with the making of the catalog lock at `run`.
    pub open spec fn locking(job: Job, expression_ref: String, run: EnsureView) -> DevelopView {
        match run {
            EnsureView::Ended(Ok(lock)) => DevelopView::FindingUrl { job, expression_ref, lock },
            EnsureView::Ended(Err(error)) => DevelopView::Ended(
                DevelopFailureView::CatalogLock(error),
            ),
            _ => DevelopView::Locking { job, expression_ref, run },
        }
    }

    /// The run with the capture of the build environment at `run`.
    pub open spec fn printing(job: Job, lock: BuildLockView, run: DevEnvView) -> DevelopView {
        match run {
            DevEnvView::Ended(Ok(env_script)) => DevelopView::Rendering {
                job,
                lock,
                render: RcfileView::FindingHome {
                    env_script,
                    pname: job.name@,
                    temp_dir: job.temp_dir@,
                },
            },
            DevEnvView::Ended(Err(error)) => DevelopView::Ended(DevelopFailureView::Shell(error)),
            _ => DevelopView::Printing { job, lock, capture: run },
        }
    }

    /// The run with the making of the rcfile at `run`.
    pub open spec fn rendering(job: Job, lock: BuildLockView, run: RcfileView) -> DevelopView {
        match run {
            RcfileView::Ended(Ok(rcfile)) => DevelopView::Disclosing {
                text: disclosure(job.name@),
                lock,
                rcfile,
            },
            RcfileView::Ended(Err(error)) => DevelopView::Ended(DevelopFailureView::Shell(error)),
            _ => DevelopView::Rendering { job, lock, render: run },
        }
    }

    /// What has to be done for the run to go on.
    pub open spec fn action(self) -> DevelopActionView {
        match self {
            DevelopView::Detecting { options, .. } => DevelopActionView::Detect {
                environment: options.environment,
                purpose: DETECT_PURPOSE@,
                command: REFUSED_COMMAND@,
            },
            DevelopView::Loading { .. } => DevelopActionView::Load,
            DevelopView::Choosing { options, loaded, .. } => DevelopActionView::Choose {
                package: options.package@,
                expression_ref: loaded.expression_path_ref@,
            },
            DevelopView::CheckingGit { job } => DevelopActionView::CheckGit {
                package: job.name@,
                rel_file_path: job.rel_file_path@,
                dir: job.loaded.dot_flox_path@,
            },
            DevelopView::Locking { run, .. } => DevelopActionView::Catalog(run.action()),
            DevelopView::FindingUrl { job, .. } => DevelopActionView::FindUrl {
                select: job.base_catalog_url_select,
            },
            DevelopView::PrefetchingCommon(_) => DevelopActionView::PrefetchCommon,
            DevelopView::PrefetchingTarget(evaluation) => DevelopActionView::PrefetchTarget {
                package: evaluation.job.name@,
                rel_file_path: evaluation.job.rel_file_path@,
                base_nixpkgs_url: evaluation.base_nixpkgs_url@,
            },
            DevelopView::Evaluating(evaluation) => DevelopActionView::Evaluate {
                base_dir: evaluation.job.loaded.base_dir@,
                expression_ref: evaluation.expression_ref@,
                cache_path: evaluation.job.loaded.cache_path@,
                base_nixpkgs_url: evaluation.base_nixpkgs_url@,
                package: evaluation.job.name@,
                lockfile: evaluation.lock.path,
                extra: None,
            },
            DevelopView::Printing { capture, .. } => capture.action(),
            DevelopView::Rendering { render, .. } => render.action(),
            DevelopView::Disclosing { text, .. } => DevelopActionView::Disclose { text },
            DevelopView::Recording { .. } => DevelopActionView::Record {
                command: DEVELOP_NAME@,
                fields: LifecycleView { exit_code: 0, duration_ms: None, error_kind: None },
            },
            DevelopView::Flushing { .. } => DevelopActionView::Flush,
            DevelopView::Executing { rcfile } => DevelopActionView::Exec {
                flag: RCFILE_FLAG@,
                rcfile,
            },
            DevelopView::Ended(_) => DevelopActionView::Nothing,
        }
    }

    /// The run after `event`. An event that does not answer the run's action changes nothing.
    pub open spec fn step(self, event: DevelopEventView) -> DevelopView {
        match (self, event) {
            (
                DevelopView::Detecting { options, temp_dir },
                DevelopEventView::Detected(reply),
            ) => match reply {
                Ok(DetectedEnvironment::Path) => DevelopView::Loading { options, temp_dir },
                Ok(DetectedEnvironment::Managed { refusal }) => DevelopView::Ended(
                    DevelopFailureView::Environment(refusal@),
                ),
                Err(reason) => DevelopView::failed(reason),
            },
            (DevelopView::Loading { options, temp_dir }, DevelopEventView::Loaded(reply)) => {
                match reply {
                    Ok(loaded) => DevelopView::Choosing { options, temp_dir, loaded },
                    Err(reason) => DevelopView::failed(reason),
                }
            },
            (
                DevelopView::Choosing { options, temp_dir, loaded },
                DevelopEventView::Chosen(reply),
            ) => match reply {
                Ok(targets) => if targets.len() == 0 {
                    self
                } else {
                    DevelopView::chosen(options, temp_dir, loaded, targets[0])
                },
                Err(reason) => DevelopView::failed(reason),
            },
            (DevelopView::CheckingGit { job }, DevelopEventView::GitChecked(reply)) => {
                match reply {
                    Ok(git_ref) => DevelopView::Locking {
                        job,
                        expression_ref: match git_ref {
                            Some(git_ref) => git_ref,
                            None => job.loaded.expression_path_ref,
                        },
                        run: EnsureView::start(
                            job.loaded.dot_flox_path@,
                            job.loaded.expressions_dir@,
                            seq![job.rel_file_path@],
                            job.temp_dir@,
                        ),
                    },
                    Err(reason) => DevelopView::failed(reason),
                }
            },
            (
                DevelopView::Locking { job, expression_ref, run },
                DevelopEventView::Catalog(event),
            ) => DevelopView::locking(job, expression_ref, run.step(event)),
            (
                DevelopView::FindingUrl { job, expression_ref, lock },
                DevelopEventView::UrlFound(reply),
            ) => match reply {
                Ok(base_nixpkgs_url) => DevelopView::PrefetchingCommon(
                    EvaluationView { job, expression_ref, lock, base_nixpkgs_url },
                ),
                Err(reason) => DevelopView::failed(reason),
            },
            (
                DevelopView::PrefetchingCommon(evaluation),
                DevelopEventView::Prefetched(reply),
            ) => match reply {
                Ok(()) => DevelopView::PrefetchingTarget(evaluation),
                Err(reason) => DevelopView::failed(reason),
            },
            (
                DevelopView::PrefetchingTarget(evaluation),
                DevelopEventView::Prefetched(reply),
            ) => match reply {
                Ok(()) => DevelopView::Evaluating(evaluation),
                Err(reason) => DevelopView::failed(reason),
            },
            (DevelopView::Evaluating(evaluation), DevelopEventView::Evaluated(reply)) => {
                match reply {
                    Ok(drv_paths) => if drv_paths.len() == 0 {
                        self
                    } else {
                        DevelopView::Printing {
                            job: evaluation.job,
                            lock: evaluation.lock,
                            capture: DevEnvView::Printing {
                                drv_path: drv_paths[0],
                                pname: evaluation.job.name@,
                                temp_dir: evaluation.job.temp_dir@,
                            },
                        }
                    },
                    Err(reason) => DevelopView::failed(reason),
                }
            },
            (DevelopView::Printing { job, lock, capture }, event) => DevelopView::printing(
                job,
                lock,
                capture.step(event),
            ),
            (DevelopView::Rendering { job, lock, render }, event) => DevelopView::rendering(
                job,
                lock,
                render.step(event),
            ),
            (DevelopView::Disclosing { lock, rcfile, .. }, DevelopEventView::Disclosed) => {
                DevelopView::Recording { lock, rcfile }
            },
            (DevelopView::Recording { lock, rcfile }, DevelopEventView::Recorded(_)) => {
                DevelopView::Flushing { lock, rcfile }
            },
            (DevelopView::Flushing { rcfile, .. }, DevelopEventView::Flushed(_)) => {
                DevelopView::Executing { rcfile }
            },
            (DevelopView::Executing { .. }, DevelopEventView::ExecFailed(error)) => {
                DevelopView::Ended(DevelopFailureView::Exec(error))
            },
            _ => self,
        }
    }
}

impl Develop {
    /// The opening of a development shell as `options` ask for, with temporary files under
    /// `temp_dir`.
    pub fn develop(options: DevelopOptions, temp_dir: Vec<u8>) -> (run: DevelopRun)
        ensures
            run@ == (DevelopView::Detecting { options, temp_dir }),
    {
        DevelopRun::Detecting { options, temp_dir }
    }
}

fn copy_bytes(bytes: &Vec<u8>) -> (copy: Vec<u8>)
    ensures
        copy@ == bytes@,
{
    let mut copy: Vec<u8> = Vec::new();
    copy.extend_from_slice(bytes.as_slice());
    assert(copy@ =~= bytes@);
    copy
}

impl DevelopRun {
    fn chosen(
        options: DevelopOptions,
        temp_dir: Vec<u8>,
        loaded: LoadedEnvironment,
        target: PackageTarget,
    ) -> (run: DevelopRun)
        ensures
            run@ == DevelopView::chosen(options, temp_dir, loaded, target),
    {
        if let Err(refusal) = Develop::refuse_manifest_build(&target) {
            return DevelopRun::Ended(DevelopFailure::ManifestBuild(refusal));
        }
        let PackageTarget { name, kind } = target;
        match kind {
            PackageTargetKind::ExpressionBuild(expression) => DevelopRun::CheckingGit {
                job: Job {
                    base_catalog_url_select: options.base_catalog_url_select,
                    temp_dir,
                    loaded,
                    name,
                    rel_file_path: expression.rel_file_path,
                },
            },
            // A manifest build is refused above.
            PackageTargetKind::ManifestBuild { .. } => vstd::pervasive::unreached(),
        }
    }

    fn locked(job: Job, git_ref: Option<String>) -> (run: DevelopRun)
        ensures
            run@ == (DevelopView::Locking {
                job,
                expression_ref: match git_ref {
                    Some(git_ref) => git_ref,
                    None => job.loaded.expression_path_ref,
                },
                run: EnsureView::start(
                    job.loaded.dot_flox_path@,
                    job.loaded.expressions_dir@,
                    seq![job.rel_file_path@],
                    job.temp_dir@,
                ),
            }),
    {
        let expression_ref = match git_ref {
            Some(git_ref) => git_ref,
            None => job.loaded.expression_path_ref.clone(),
        };
        let mut files: Vec<Vec<u8>> = Vec::new();
        files.push(copy_bytes(&job.rel_file_path));
        proof {
            assert(files@[0].deep_view() =~= job.rel_file_path@);
            assert(files.deep_view() =~= seq![job.rel_file_path@]);
        }
        let run = BuildCatalogLock::ensure(
            job.loaded.dot_flox_path.as_slice(),
            copy_bytes(&job.loaded.expressions_dir),
            files,
            copy_bytes(&job.temp_dir),
        );
        DevelopRun::Locking { job, expression_ref, run }
    }

    fn locking(job: Job, expression_ref: String, run: EnsureRun) -> (next: DevelopRun)
        ensures
            next@ == DevelopView::locking(job, expression_ref, run@),
    {
        match run {
            EnsureRun::Ended(Ok(lock)) => DevelopRun::FindingUrl { job, expression_ref, lock },
            EnsureRun::Ended(Err(error)) => DevelopRun::Ended(DevelopFailure::CatalogLock(error)),
            run => DevelopRun::Locking { job, expression_ref, run },
        }
    }

    fn printing(job: Job, lock: BuildCatalogLock, run: DevEnvRun) -> (next: DevelopRun)
        ensures
            next@ == DevelopView::printing(job, lock@, run@),
    {
        match run {
            DevEnvRun::Ended(Ok(env_script)) => {
                let render = Develop::render_rcfile(
                    env_script,
                    job.name.clone(),
                    copy_bytes(&job.temp_dir),
                );
                DevelopRun::Rendering { job, lock, render }
            },
            DevEnvRun::Ended(Err(error)) => DevelopRun::Ended(DevelopFailure::Shell(error)),
            capture => DevelopRun::Printing { job, lock, capture },
        }
    }

    fn rendering(job: Job, lock: BuildCatalogLock, run: RcfileRun) -> (next: DevelopRun)
        ensures
            next@ == DevelopView::rendering(job, lock@, run@),
    {
        match run {
            RcfileRun::Ended(Ok(rcfile)) => DevelopRun::Disclosing {
                text: Develop::print_disclosure(job.name.as_str()),
                lock,
                rcfile,
            },
            RcfileRun::Ended(Err(error)) => DevelopRun::Ended(DevelopFailure::Shell(error)),
            render => DevelopRun::Rendering { job, lock, render },
        }
    }

    /// What has to be done for the run to go on.
    pub fn action(&self) -> (action: DevelopAction<'_>)
        ensures
            action@ == self@.action(),
    {
        match self {
            DevelopRun::Detecting { options, .. } => DevelopAction::Detect {
                environment: &options.environment,
                purpose: DETECT_PURPOSE,
                command: REFUSED_COMMAND,
            },
            DevelopRun::Loading { .. } => DevelopAction::Load,
            DevelopRun::Choosing { options, loaded, .. } => DevelopAction::Choose {
                package: &options.package,
                expression_ref: &loaded.expression_path_ref,
            },
            DevelopRun::CheckingGit { job } => DevelopAction::CheckGit {
                package: &job.name,
                rel_file_path: &job.rel_file_path,
                dir: &job.loaded.dot_flox_path,
            },
            DevelopRun::Locking { run, .. } => DevelopAction::Catalog(run.action()),
            DevelopRun::FindingUrl { job, .. } => DevelopAction::FindUrl {
                select: &job.base_catalog_url_select,
            },
            DevelopRun::PrefetchingCommon(_) => DevelopAction::PrefetchCommon,
            DevelopRun::PrefetchingTarget(evaluation) => DevelopAction::PrefetchTarget {
                package: &evaluation.job.name,
                rel_file_path: &evaluation.job.rel_file_path,
                base_nixpkgs_url: &evaluation.base_nixpkgs_url,
            },
            DevelopRun::Evaluating(evaluation) => DevelopAction::Evaluate {
                base_dir: &evaluation.job.loaded.base_dir,
                expression_ref: &evaluation.expression_ref,
                cache_path: &evaluation.job.loaded.cache_path,
                base_nixpkgs_url: &evaluation.base_nixpkgs_url,
                package: &evaluation.job.name,
                lockfile: evaluation.lock.path(),
                extra: None,
            },
            DevelopRun::Printing { capture, .. } => capture.action(),
            DevelopRun::Rendering { render, .. } => render.action(),
            DevelopRun::Disclosing { text, .. } => DevelopAction::Disclose { text },
            DevelopRun::Recording { .. } => DevelopAction::Record {
                command: DEVELOP_NAME,
                fields: LifecycleFields { exit_code: 0, duration_ms: None, error_kind: None },
            },
            DevelopRun::Flushing { .. } => DevelopAction::Flush,
            DevelopRun::Executing { rcfile } => DevelopAction::Exec {
                flag: RCFILE_FLAG,
                rcfile,
            },
            DevelopRun::Ended(_) => DevelopAction::Nothing,
        }
    }

    /// The run after `event`. An event that does not answer the run's action changes nothing.
    /// What nix wrote in valid UTF-8 is told as it stands, and paths in valid UTF-8 stand in
    /// the rcfile as they are.
    pub fn step(self, event: DevelopEvent) -> (run: DevelopRun)
        ensures
            run@ == self@.step(event@),
            match (self@, event@) {
                (
                    DevelopView::Printing {
                        capture: DevEnvView::Probing { pname, stderr, .. },
                        ..
                    },
                    DevelopEventView::Probed(exists),
                ) => {
                    valid_utf8(stderr) ==> run@ == DevelopView::Ended(
                        DevelopFailureView::Shell(
                            print_failure(exists, pname, decode_utf8(stderr)),
                        ),
                    )
                },
                (
                    DevelopView::Rendering {
                        job,
                        lock,
                        render: RcfileView::FindingHome { env_script, pname, temp_dir },
                    },
                    DevelopEventView::HomeFound(home),
                ) => {
                    plain_paths(home, env_script) ==> run@ == (DevelopView::Rendering {
                        job,
                        lock,
                        render: RcfileView::Creating {
                            content: rcfile_text(decoded(home), decode_utf8(env_script), pname),
                            temp_dir,
                        },
                    })
                },
                _ => true,
            },
    {
        match (self, event) {
            (DevelopRun::Detecting { options, temp_dir }, DevelopEvent::Detected(reply)) => {
                match reply {
                    Ok(DetectedEnvironment::Path) => DevelopRun::Loading { options, temp_dir },
                    Ok(DetectedEnvironment::Managed { refusal }) => DevelopRun::Ended(
                        DevelopFailure::Environment(refusal),
                    ),
                    Err(reason) => DevelopRun::Ended(DevelopFailure::Step(reason)),
                }
            },
            (DevelopRun::Loading { options, temp_dir }, DevelopEvent::Loaded(reply)) => {
                match reply {
                    Ok(loaded) => DevelopRun::Choosing { options, temp_dir, loaded },
                    Err(reason) => DevelopRun::Ended(DevelopFailure::Step(reason)),
                }
            },
            (
                DevelopRun::Choosing { options, temp_dir, loaded },
                DevelopEvent::Chosen(reply),
            ) => match reply {
                Ok(mut targets) => {
                    if targets.len() == 0 {
                        return DevelopRun::Choosing { options, temp_dir, loaded };
                    }
                    DevelopRun::chosen(options, temp_dir, loaded, targets.remove(0))
                },
                Err(reason) => DevelopRun::Ended(DevelopFailure::Step(reason)),
            },
            (DevelopRun::CheckingGit { job }, DevelopEvent::GitChecked(reply)) => match reply {
                Ok(git_ref) => DevelopRun::locked(job, git_ref),
                Err(reason) => DevelopRun::Ended(DevelopFailure::Step(reason)),
            },
            (
                DevelopRun::Locking { job, expression_ref, run },
                DevelopEvent::Catalog(event),
            ) => DevelopRun::locking(job, expression_ref, run.step(event)),
            (
                DevelopRun::FindingUrl { job, expression_ref, lock },
                DevelopEvent::UrlFound(reply),
            ) => match reply {
                Ok(base_nixpkgs_url) => DevelopRun::PrefetchingCommon(
                    Evaluation { job, expression_ref, lock, base_nixpkgs_url },
                ),
                Err(reason) => DevelopRun::Ended(DevelopFailure::Step(reason)),
            },
            (DevelopRun::PrefetchingCommon(evaluation), DevelopEvent::Prefetched(reply)) => {
                match reply {
                    Ok(()) => DevelopRun::PrefetchingTarget(evaluation),
                    Err(reason) => DevelopRun::Ended(DevelopFailure::Step(reason)),
                }
            },
            (DevelopRun::PrefetchingTarget(evaluation), DevelopEvent::Prefetched(reply)) => {
                match reply {
                    Ok(()) => DevelopRun::Evaluating(evaluation),
                    Err(reason) => DevelopRun::Ended(DevelopFailure::Step(reason)),
                }
            },
            (DevelopRun::Evaluating(evaluation), DevelopEvent::Evaluated(reply)) => match reply {
                Ok(mut drv_paths) => {
                    if drv_paths.len() == 0 {
                        return DevelopRun::Evaluating(evaluation);
                    }
                    let Evaluation { job, expression_ref: _, lock, base_nixpkgs_url: _ } =
                        evaluation;
                    let ghost paths = drv_paths.deep_view();
                    let drv_path = drv_paths.remove(0);
                    assert(drv_path@ == paths[0]);
                    let capture = Develop::print_dev_env(
                        drv_path,
                        job.name.clone(),
                        copy_bytes(&job.temp_dir),
                    );
                    DevelopRun::Printing { job, lock, capture }
                },
                Err(reason) => DevelopRun::Ended(DevelopFailure::Step(reason)),
            },
            (DevelopRun::Printing { job, lock, capture }, event) => DevelopRun::printing(
                job,
                lock,
                capture.step(event),
            ),
            (DevelopRun::Rendering { job, lock, render }, event) => DevelopRun::rendering(
                job,
                lock,
                render.step(event),
            ),
            (DevelopRun::Disclosing { text: _, lock, rcfile }, DevelopEvent::Disclosed) => {
                DevelopRun::Recording { lock, rcfile }
            },
            (DevelopRun::Recording { lock, rcfile }, DevelopEvent::Recorded(_)) => {
                DevelopRun::Flushing { lock, rcfile }
            },
            (DevelopRun::Flushing { lock: _, rcfile }, DevelopEvent::Flushed(_)) => {
                DevelopRun::Executing { rcfile }
            },
            (DevelopRun::Executing { rcfile: _ }, DevelopEvent::ExecFailed(error)) => {
                DevelopRun::Ended(DevelopFailure::Exec(error))
            },
            (run, _) => run,
        }
    }
}

} // verus!

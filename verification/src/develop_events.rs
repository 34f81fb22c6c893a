//! What the opening of a development shell needs done outside, and what comes of it.

use vstd::prelude::*;

use crate::catalog_lock::{CatalogAction, CatalogActionView, CatalogEvent, CatalogEventView};
use crate::develop::{BaseCatalogUrlSelect, DirEnvironmentSelect};
use crate::target::PackageTarget;

verus! {

/// What is recorded of a command that completed.
#[derive(Debug)]
pub struct LifecycleFields {
    pub exit_code: i32,
    /// How long the command took, where that is known.
    pub duration_ms: Option<u64>,
    /// What kind of error the command ended with, if with one.
    pub error_kind: Option<String>,
}

/// What [LifecycleFields] stand for.
#[verifier::ext_equal]
pub struct LifecycleView {
    pub exit_code: i32,
    pub duration_ms: Option<u64>,
    pub error_kind: Option<Seq<char>>,
}

impl View for LifecycleFields {
    type V = LifecycleView;

    open spec fn view(&self) -> LifecycleView {
        LifecycleView {
            exit_code: self.exit_code,
            duration_ms: self.duration_ms,
            error_kind: match self.error_kind {
                Some(kind) => Some(kind@),
                None => None,
            },
        }
    }
}

/// Something that has to be done outside for a run to go on.
pub enum DevelopAction<'a> {
    /// Find the environment that was selected; `purpose` says what for. One without project
    /// files is refused in words that name `command`.
    Detect {
        environment: &'a DirEnvironmentSelect,
        purpose: &'static str,
        command: &'static str,
    },
    /// Build the environment and load its lockfile and manifest.
    Load,
    /// Find the target for `package` among the builds of the manifest and the expressions
    /// that `expression_ref` refers to.
    Choose { package: &'a String, expression_ref: &'a String },
    /// Find out whether git tracks the expressions in `dir` that building `package` from the
    /// expression at `rel_file_path` needs.
    CheckGit { package: &'a String, rel_file_path: &'a Vec<u8>, dir: &'a Vec<u8> },
    /// Something for the catalog lock.
    Catalog(CatalogAction<'a>),
    /// Find the nixpkgs to evaluate with.
    FindUrl { select: &'a Option<BaseCatalogUrlSelect> },
    /// Fetch the nixpkgs that every evaluation uses.
    PrefetchCommon,
    /// Fetch the nixpkgs that evaluating `package` from the expression at `rel_file_path` uses.
    PrefetchTarget {
        package: &'a String,
        rel_file_path: &'a Vec<u8>,
        base_nixpkgs_url: &'a String,
    },
    /// Evaluate `package` to its derivation, with the catalog lock at `lockfile`; `extra` is
    /// the evaluation's last argument, which can be left out.
    Evaluate {
        base_dir: &'a Vec<u8>,
        expression_ref: &'a String,
        cache_path: &'a Vec<u8>,
        base_nixpkgs_url: &'a String,
        package: &'a String,
        lockfile: &'a Vec<u8>,
        extra: Option<String>,
    },
    /// Run nix with the arguments `subcommand` and `drv_path`.
    PrintDevEnv { subcommand: &'static str, drv_path: &'a Vec<u8> },
    /// Find out whether there is a file at `path`.
    Probe { path: &'a Vec<u8> },
    /// Look up the user's home directory.
    FindHome,
    /// Create an empty file under a random name in the directory at `dir`, and keep it.
    CreateFile { dir: &'a Vec<u8> },
    /// Write `contents` into the file at `path`.
    WriteFile { path: &'a Vec<u8>, contents: &'a [u8] },
    /// Show `text` to the user.
    Disclose { text: &'a String },
    /// Record that `command` completed, with `fields`.
    Record { command: &'static str, fields: LifecycleFields },
    /// Send off what has been recorded.
    Flush,
    /// Replace this process by an interactive bash with the arguments `flag` and `rcfile`.
    Exec { flag: &'static str, rcfile: &'a Vec<u8> },
    /// Nothing: the run has ended.
    Nothing,
}

/// What a [DevelopAction] stands for.
pub enum DevelopActionView {
    Detect { environment: DirEnvironmentSelect, purpose: Seq<char>, command: Seq<char> },
    Load,
    Choose { package: Seq<char>, expression_ref: Seq<char> },
    CheckGit { package: Seq<char>, rel_file_path: Seq<u8>, dir: Seq<u8> },
    Catalog(CatalogActionView),
    FindUrl { select: Option<BaseCatalogUrlSelect> },
    PrefetchCommon,
    PrefetchTarget {
        package: Seq<char>,
        rel_file_path: Seq<u8>,
        base_nixpkgs_url: Seq<char>,
    },
    Evaluate {
        base_dir: Seq<u8>,
        expression_ref: Seq<char>,
        cache_path: Seq<u8>,
        base_nixpkgs_url: Seq<char>,
        package: Seq<char>,
        lockfile: Seq<u8>,
        extra: Option<Seq<char>>,
    },
    PrintDevEnv { subcommand: Seq<char>, drv_path: Seq<u8> },
    Probe { path: Seq<u8> },
    FindHome,
    CreateFile { dir: Seq<u8> },
    WriteFile { path: Seq<u8>, contents: Seq<u8> },
    Disclose { text: Seq<char> },
    Record { command: Seq<char>, fields: LifecycleView },
    Flush,
    Exec { flag: Seq<char>, rcfile: Seq<u8> },
    Nothing,
}

impl<'a> View for DevelopAction<'a> {
    type V = DevelopActionView;

    open spec fn view(&self) -> DevelopActionView {
        match *self {
            DevelopAction::Detect { environment, purpose, command } => DevelopActionView::Detect {
                environment: *environment,
                purpose: purpose@,
                command: command@,
            },
            DevelopAction::Load => DevelopActionView::Load,
            DevelopAction::Choose { package, expression_ref } => DevelopActionView::Choose {
                package: package@,
                expression_ref: expression_ref@,
            },
            DevelopAction::CheckGit { package, rel_file_path, dir } => {
                DevelopActionView::CheckGit {
                    package: package@,
                    rel_file_path: rel_file_path@,
                    dir: dir@,
                }
            },
            DevelopAction::Catalog(action) => DevelopActionView::Catalog(action@),
            DevelopAction::FindUrl { select } => DevelopActionView::FindUrl { select: *select },
            DevelopAction::PrefetchCommon => DevelopActionView::PrefetchCommon,
            DevelopAction::PrefetchTarget { package, rel_file_path, base_nixpkgs_url } => {
                DevelopActionView::PrefetchTarget {
                    package: package@,
                    rel_file_path: rel_file_path@,
                    base_nixpkgs_url: base_nixpkgs_url@,
                }
            },
            DevelopAction::Evaluate {
                base_dir,
                expression_ref,
                cache_path,
                base_nixpkgs_url,
                package,
                lockfile,
                extra,
            } => DevelopActionView::Evaluate {
                base_dir: base_dir@,
                expression_ref: expression_ref@,
                cache_path: cache_path@,
                base_nixpkgs_url: base_nixpkgs_url@,
                package: package@,
                lockfile: lockfile@,
                extra: match extra {
                    Some(extra) => Some(extra@),
                    None => None,
                },
            },
            DevelopAction::PrintDevEnv { subcommand, drv_path } => {
                DevelopActionView::PrintDevEnv { subcommand: subcommand@, drv_path: drv_path@ }
            },
            DevelopAction::Probe { path } => DevelopActionView::Probe { path: path@ },
            DevelopAction::FindHome => DevelopActionView::FindHome,
            DevelopAction::CreateFile { dir } => DevelopActionView::CreateFile { dir: dir@ },
            DevelopAction::WriteFile { path, contents } => DevelopActionView::WriteFile {
                path: path@,
                contents: contents@,
            },
            DevelopAction::Disclose { text } => DevelopActionView::Disclose { text: text@ },
            DevelopAction::Record { command, fields } => DevelopActionView::Record {
                command: command@,
                fields: fields@,
            },
            DevelopAction::Flush => DevelopActionView::Flush,
            DevelopAction::Exec { flag, rcfile } => DevelopActionView::Exec {
                flag: flag@,
                rcfile: rcfile@,
            },
            DevelopAction::Nothing => DevelopActionView::Nothing,
        }
    }
}

/// The kind of environment that was found.
#[derive(Debug)]
pub enum DetectedEnvironment {
    /// One with project files.
    Path,
    /// One without, which is refused with the words given.
    Managed { refusal: String },
}

/// What is known of an environment once it is built and loaded.
#[derive(Debug)]
pub struct LoadedEnvironment {
    /// The directory that holds the project.
    pub base_dir: Vec<u8>,
    pub cache_path: Vec<u8>,
    pub dot_flox_path: Vec<u8>,
    /// The directory that holds the project's Nix expressions.
    pub expressions_dir: Vec<u8>,
    /// A reference to the expressions by their path.
    pub expression_path_ref: String,
}

/// What a finished command left behind.
#[derive(Debug)]
pub struct CommandOutput {
    pub success: bool,
    pub stdout: Vec<u8>,
    pub stderr: Vec<u8>,
}

/// What a [CommandOutput] stands for.
pub struct OutputView {
    pub success: bool,
    pub stdout: Seq<u8>,
    pub stderr: Seq<u8>,
}

impl View for CommandOutput {
    type V = OutputView;

    open spec fn view(&self) -> OutputView {
        OutputView { success: self.success, stdout: self.stdout@, stderr: self.stderr@ }
    }
}

/// What came of a [DevelopAction].
#[derive(Debug)]
pub enum DevelopEvent {
    Detected(Result<DetectedEnvironment, String>),
    Loaded(Result<LoadedEnvironment, String>),
    /// The targets found, at least one.
    Chosen(Result<Vec<PackageTarget>, String>),
    /// A reference to the expressions in their git repository, if git tracks them.
    GitChecked(Result<Option<String>, String>),
    Catalog(CatalogEvent),
    UrlFound(Result<String, String>),
    Prefetched(Result<(), String>),
    /// The derivation paths of the packages evaluated, at least one.
    Evaluated(Result<Vec<Vec<u8>>, String>),
    Printed(Result<CommandOutput, std::io::Error>),
    Probed(bool),
    HomeFound(Option<Vec<u8>>),
    /// The path of the file.
    FileCreated(Result<Vec<u8>, std::io::Error>),
    FileWritten(Result<(), std::io::Error>),
    Disclosed,
    /// Whether recording succeeded.
    Recorded(bool),
    /// Whether sending off succeeded.
    Flushed(bool),
    ExecFailed(std::io::Error),
}

/// What a [DevelopEvent] stands for.
pub enum DevelopEventView {
    Detected(Result<DetectedEnvironment, String>),
    Loaded(Result<LoadedEnvironment, String>),
    Chosen(Result<Seq<PackageTarget>, String>),
    GitChecked(Result<Option<String>, String>),
    Catalog(CatalogEventView),
    UrlFound(Result<String, String>),
    Prefetched(Result<(), String>),
    Evaluated(Result<Seq<Seq<u8>>, String>),
    Printed(Result<OutputView, std::io::Error>),
    Probed(bool),
    HomeFound(Option<Seq<u8>>),
    FileCreated(Result<Seq<u8>, std::io::Error>),
    FileWritten(Result<(), std::io::Error>),
    Disclosed,
    Recorded(bool),
    Flushed(bool),
    ExecFailed(std::io::Error),
}

impl View for DevelopEvent {
    type V = DevelopEventView;

    open spec fn view(&self) -> DevelopEventView {
        match *self {
            DevelopEvent::Detected(reply) => DevelopEventView::Detected(reply),
            DevelopEvent::Loaded(reply) => DevelopEventView::Loaded(reply),
            DevelopEvent::Chosen(Ok(targets)) => DevelopEventView::Chosen(Ok(targets@)),
            DevelopEvent::Chosen(Err(reason)) => DevelopEventView::Chosen(Err(reason)),
            DevelopEvent::GitChecked(reply) => DevelopEventView::GitChecked(reply),
            DevelopEvent::Catalog(event) => DevelopEventView::Catalog(event@),
            DevelopEvent::UrlFound(reply) => DevelopEventView::UrlFound(reply),
            DevelopEvent::Prefetched(reply) => DevelopEventView::Prefetched(reply),
            DevelopEvent::Evaluated(Ok(paths)) => DevelopEventView::Evaluated(
                Ok(paths.deep_view()),
            ),
            DevelopEvent::Evaluated(Err(reason)) => DevelopEventView::Evaluated(Err(reason)),
            DevelopEvent::Printed(Ok(output)) => DevelopEventView::Printed(Ok(output@)),
            DevelopEvent::Printed(Err(error)) => DevelopEventView::Printed(Err(error)),
            DevelopEvent::Probed(exists) => DevelopEventView::Probed(exists),
            DevelopEvent::HomeFound(Some(home)) => DevelopEventView::HomeFound(Some(home@)),
            DevelopEvent::HomeFound(None) => DevelopEventView::HomeFound(None),
            DevelopEvent::FileCreated(Ok(path)) => DevelopEventView::FileCreated(Ok(path@)),
            DevelopEvent::FileCreated(Err(error)) => DevelopEventView::FileCreated(Err(error)),
            DevelopEvent::FileWritten(reply) => DevelopEventView::FileWritten(reply),
            DevelopEvent::Disclosed => DevelopEventView::Disclosed,
            DevelopEvent::Recorded(ok) => DevelopEventView::Recorded(ok),
            DevelopEvent::Flushed(ok) => DevelopEventView::Flushed(ok),
            DevelopEvent::ExecFailed(error) => DevelopEventView::ExecFailed(error),
        }
    }
}

impl DevelopEventView {
    /// Whether this is what can come of `action`. A package that is found has a target, and
    /// one that is evaluated has a derivation.
    pub open spec fn answers(self, action: DevelopActionView) -> bool {
        match (action, self) {
            (DevelopActionView::Detect { .. }, DevelopEventView::Detected(_)) => true,
            (DevelopActionView::Load, DevelopEventView::Loaded(_)) => true,
            (DevelopActionView::Choose { .. }, DevelopEventView::Chosen(reply)) => {
                reply matches Ok(targets) ==> targets.len() > 0
            },
            (DevelopActionView::CheckGit { .. }, DevelopEventView::GitChecked(_)) => true,
            (DevelopActionView::Catalog(action), DevelopEventView::Catalog(event)) => {
                event.answers(action)
            },
            (DevelopActionView::FindUrl { .. }, DevelopEventView::UrlFound(_)) => true,
            (DevelopActionView::PrefetchCommon, DevelopEventView::Prefetched(_)) => true,
            (DevelopActionView::PrefetchTarget { .. }, DevelopEventView::Prefetched(_)) => true,
            (DevelopActionView::Evaluate { .. }, DevelopEventView::Evaluated(reply)) => {
                reply matches Ok(drv_paths) ==> drv_paths.len() > 0
            },
            (DevelopActionView::PrintDevEnv { .. }, DevelopEventView::Printed(_)) => true,
            (DevelopActionView::Probe { .. }, DevelopEventView::Probed(_)) => true,
            (DevelopActionView::FindHome, DevelopEventView::HomeFound(_)) => true,
            (DevelopActionView::CreateFile { .. }, DevelopEventView::FileCreated(_)) => true,
            (DevelopActionView::WriteFile { .. }, DevelopEventView::FileWritten(_)) => true,
            (DevelopActionView::Disclose { .. }, DevelopEventView::Disclosed) => true,
            (DevelopActionView::Record { .. }, DevelopEventView::Recorded(_)) => true,
            (DevelopActionView::Flush, DevelopEventView::Flushed(_)) => true,
            (DevelopActionView::Exec { .. }, DevelopEventView::ExecFailed(_)) => true,
            _ => false,
        }
    }
}

/// What an action asks for is what it carries.
pub proof fn develop_actions_ask_for_what_they_carry(action: DevelopAction<'_>)
    ensures
        match action {
            DevelopAction::Detect { environment, purpose, command } => action@ == (
            DevelopActionView::Detect {
                environment: *environment,
                purpose: purpose@,
                command: command@,
            }),
            DevelopAction::Load => action@ == DevelopActionView::Load,
            DevelopAction::Choose { package, expression_ref } => action@ == (
            DevelopActionView::Choose { package: package@, expression_ref: expression_ref@ }),
            DevelopAction::CheckGit { package, rel_file_path, dir } => action@ == (
            DevelopActionView::CheckGit {
                package: package@,
                rel_file_path: rel_file_path@,
                dir: dir@,
            }),
            DevelopAction::Catalog(action_there) => action@ == DevelopActionView::Catalog(
                action_there@,
            ),
            DevelopAction::FindUrl { select } => action@ == (DevelopActionView::FindUrl {
                select: *select,
            }),
            DevelopAction::PrefetchCommon => action@ == DevelopActionView::PrefetchCommon,
            DevelopAction::PrefetchTarget { package, rel_file_path, base_nixpkgs_url } => action@
                == (DevelopActionView::PrefetchTarget {
                package: package@,
                rel_file_path: rel_file_path@,
                base_nixpkgs_url: base_nixpkgs_url@,
            }),
            DevelopAction::Evaluate {
                base_dir,
                expression_ref,
                cache_path,
                base_nixpkgs_url,
                package,
                lockfile,
                extra,
            } => {
                &&& action@ matches DevelopActionView::Evaluate {
                    base_dir: to_base_dir,
                    expression_ref: to_expression_ref,
                    cache_path: to_cache_path,
                    base_nixpkgs_url: to_base_nixpkgs_url,
                    package: to_package,
                    lockfile: to_lockfile,
                    extra: to_extra,
                }
                &&& to_base_dir == base_dir@
                &&& to_expression_ref == expression_ref@
                &&& to_cache_path == cache_path@
                &&& to_base_nixpkgs_url == base_nixpkgs_url@
                &&& to_package == package@
                &&& to_lockfile == lockfile@
                &&& to_extra is None <==> extra is None
                &&& extra is Some ==> to_extra == Some(extra->0@)
            },
            DevelopAction::PrintDevEnv { subcommand, drv_path } => action@ == (
            DevelopActionView::PrintDevEnv { subcommand: subcommand@, drv_path: drv_path@ }),
            DevelopAction::Probe { path } => action@ == (DevelopActionView::Probe { path: path@ }),
            DevelopAction::FindHome => action@ == DevelopActionView::FindHome,
            DevelopAction::CreateFile { dir } => action@ == (DevelopActionView::CreateFile {
                dir: dir@,
            }),
            DevelopAction::WriteFile { path, contents } => action@ == (
            DevelopActionView::WriteFile { path: path@, contents: contents@ }),
            DevelopAction::Disclose { text } => action@ == (DevelopActionView::Disclose {
                text: text@,
            }),
            DevelopAction::Record { command, fields } => action@ == (DevelopActionView::Record {
                command: command@,
                fields: fields@,
            }),
            DevelopAction::Flush => action@ == DevelopActionView::Flush,
            DevelopAction::Exec { flag, rcfile } => action@ == (DevelopActionView::Exec {
                flag: flag@,
                rcfile: rcfile@,
            }),
            DevelopAction::Nothing => action@ == DevelopActionView::Nothing,
        },
{
}

/// What is recorded of a command is what the fields hold.
pub proof fn recorded_fields_stand_for_what_they_hold(fields: LifecycleFields)
    ensures
        fields@.exit_code == fields.exit_code,
        fields@.duration_ms == fields.duration_ms,
        fields@.error_kind is None <==> fields.error_kind is None,
        fields.error_kind is Some ==> fields@.error_kind == Some(fields.error_kind->0@),
{
}

/// What an event tells is what it carries.
pub proof fn develop_events_tell_what_they_carry(event: DevelopEvent)
    ensures
        match event {
            DevelopEvent::Detected(reply) => event@ == DevelopEventView::Detected(reply),
            DevelopEvent::Loaded(reply) => event@ == DevelopEventView::Loaded(reply),
            DevelopEvent::Chosen(Ok(targets)) => event@ == DevelopEventView::Chosen(Ok(targets@)),
            DevelopEvent::Chosen(Err(reason)) => event@ == DevelopEventView::Chosen(Err(reason)),
            DevelopEvent::GitChecked(reply) => event@ == DevelopEventView::GitChecked(reply),
            DevelopEvent::Catalog(event_there) => event@ == DevelopEventView::Catalog(
                event_there@,
            ),
            DevelopEvent::UrlFound(reply) => event@ == DevelopEventView::UrlFound(reply),
            DevelopEvent::Prefetched(reply) => event@ == DevelopEventView::Prefetched(reply),
            DevelopEvent::Evaluated(Ok(paths)) => {
                &&& event@ matches DevelopEventView::Evaluated(Ok(told))
                &&& told.len() == paths@.len()
                &&& forall|i: int| 0 <= i < told.len() ==> #[trigger] told[i] == paths@[i]@
            },
            DevelopEvent::Evaluated(Err(reason)) => event@ == DevelopEventView::Evaluated(
                Err(reason),
            ),
            DevelopEvent::Printed(Ok(output)) => event@ == DevelopEventView::Printed(
                Ok(
                    OutputView {
                        success: output.success,
                        stdout: output.stdout@,
                        stderr: output.stderr@,
                    },
                ),
            ),
            DevelopEvent::Printed(Err(error)) => event@ == DevelopEventView::Printed(Err(error)),
            DevelopEvent::Probed(exists) => event@ == DevelopEventView::Probed(exists),
            DevelopEvent::HomeFound(Some(home)) => event@ == DevelopEventView::HomeFound(
                Some(home@),
            ),
            DevelopEvent::HomeFound(None) => event@ == DevelopEventView::HomeFound(None),
            DevelopEvent::FileCreated(Ok(path)) => event@ == DevelopEventView::FileCreated(
                Ok(path@),
            ),
            DevelopEvent::FileCreated(Err(error)) => event@ == DevelopEventView::FileCreated(
                Err(error),
            ),
            DevelopEvent::FileWritten(reply) => event@ == DevelopEventView::FileWritten(reply),
            DevelopEvent::Disclosed => event@ == DevelopEventView::Disclosed,
            DevelopEvent::Recorded(ok) => event@ == DevelopEventView::Recorded(ok),
            DevelopEvent::Flushed(ok) => event@ == DevelopEventView::Flushed(ok),
            DevelopEvent::ExecFailed(error) => event@ == DevelopEventView::ExecFailed(error),
        },
{
    if let DevelopEvent::Evaluated(Ok(paths)) = event {
        assert forall|i: int| 0 <= i < paths@.len() implies #[trigger] paths.deep_view()[i]
            == paths@[i]@ by {
            assert(paths@[i].deep_view() =~= paths@[i]@);
        }
    }
}

/// Each action is answered by the events of its own kind, and by no others; a package that is
/// found has a target, and one that is evaluated a derivation.
pub proof fn develop_actions_have_their_own_answers(
    action: DevelopActionView,
    event: DevelopEventView,
)
    ensures
        event.answers(action) <==> {
            ||| action is Detect && event is Detected
            ||| action is Load && event is Loaded
            ||| action is Choose && (event matches DevelopEventView::Chosen(reply) && (
            reply matches Ok(targets) ==> targets.len() > 0))
            ||| action is CheckGit && event is GitChecked
            ||| (action matches DevelopActionView::Catalog(asked)
                && event matches DevelopEventView::Catalog(told) && told.answers(asked))
            ||| action is FindUrl && event is UrlFound
            ||| action is PrefetchCommon && event is Prefetched
            ||| action is PrefetchTarget && event is Prefetched
            ||| action is Evaluate && (event matches DevelopEventView::Evaluated(reply) && (
            reply matches Ok(drv_paths) ==> drv_paths.len() > 0))
            ||| action is PrintDevEnv && event is Printed
            ||| action is Probe && event is Probed
            ||| action is FindHome && event is HomeFound
            ||| action is CreateFile && event is FileCreated
            ||| action is WriteFile && event is FileWritten
            ||| action is Disclose && event is Disclosed
            ||| action is Record && event is Recorded
            ||| action is Flush && event is Flushed
            ||| action is Exec && event is ExecFailed
        },
{
}

} // verus!

//! Capturing the environment of a package's build in a script.

use vstd::prelude::*;
use vstd::utf8::*;

use crate::develop::Develop;
use crate::develop_error::{DevelopError, DevelopErrorView};
use crate::develop_events::{
    DevelopAction,
    DevelopActionView,
    DevelopEvent,
    DevelopEventView,
    OutputView,
};
use crate::outside::{from_utf8_lossy, utf8_lossy};

verus! {

/// The nix command that prints a build environment.
pub const PRINT_DEV_ENV: &'static str = "print-dev-env";

/// The capture of a build environment, as far as it has come.
#[derive(Debug)]
pub enum DevEnvRun {
    /// The environment is to be printed.
    Printing { drv_path: Vec<u8>, pname: String, temp_dir: Vec<u8> },
    /// Printing it failed, and it is not known yet whether the derivation still exists.
    Probing { drv_path: Vec<u8>, pname: String, stderr: Vec<u8> },
    /// The script needs a file.
    Creating { script: Vec<u8>, temp_dir: Vec<u8> },
    /// The script is to be written into its file.
    Writing { script: Vec<u8>, path: Vec<u8> },
    /// The script is in the file at the path, or there will be none.
    Ended(Result<Vec<u8>, DevelopError>),
}

/// What a [DevEnvRun] stands for.
#[verifier::ext_equal]
pub enum DevEnvView {
    Printing { drv_path: Seq<u8>, pname: Seq<char>, temp_dir: Seq<u8> },
    Probing { drv_path: Seq<u8>, pname: Seq<char>, stderr: Seq<u8> },
    Creating { script: Seq<u8>, temp_dir: Seq<u8> },
    Writing { script: Seq<u8>, path: Seq<u8> },
    Ended(Result<Seq<u8>, DevelopErrorView>),
}

impl View for DevEnvRun {
    type V = DevEnvView;

    open spec fn view(&self) -> DevEnvView {
        match *self {
            DevEnvRun::Printing { drv_path, pname, temp_dir } => DevEnvView::Printing {
                drv_path: drv_path@,
                pname: pname@,
                temp_dir: temp_dir@,
            },
            DevEnvRun::Probing { drv_path, pname, stderr } => DevEnvView::Probing {
                drv_path: drv_path@,
                pname: pname@,
                stderr: stderr@,
            },
            DevEnvRun::Creating { script, temp_dir } => DevEnvView::Creating {
                script: script@,
                temp_dir: temp_dir@,
            },
            DevEnvRun::Writing { script, path } => DevEnvView::Writing {
                script: script@,
                path: path@,
            },
            DevEnvRun::Ended(Ok(path)) => DevEnvView::Ended(Ok(path@)),
            DevEnvRun::Ended(Err(error)) => DevEnvView::Ended(Err(error@)),
        }
    }
}

/// What a failure to print the environment of `pname` is reported as: a derivation that is no
/// longer there was garbage collected, and anything else is told in nix's own words.
pub open spec fn print_failure(
    exists: bool,
    pname: Seq<char>,
    stderr: Seq<char>,
) -> DevelopErrorView {
    if exists {
        DevelopErrorView::PrintDevEnv { pname, stderr }
    } else {
        DevelopErrorView::DerivationGarbageCollected { pname }
    }
}

/// What a failure to print the environment of `pname` is reported as, where `exists` says
/// whether the derivation is still there and `stderr` what nix said.
pub fn classify_print_failure(exists: bool, pname: String, stderr: String) -> (error: DevelopError)
    ensures
        error@ == print_failure(exists, pname@, stderr@),
{
    if !exists {
        return DevelopError::DerivationGarbageCollected { pname };
    }
    DevelopError::PrintDevEnv { pname, stderr }
}

/// What a failure to print the environment of `pname` is reported as, where `stderr` is what
/// nix wrote. What nix wrote in valid UTF-8 is told as it stands.
pub fn report_print_failure(exists: bool, pname: String, stderr: &[u8]) -> (error: DevelopError)
    ensures
        error@ == print_failure(exists, pname@, utf8_lossy(stderr@)),
        valid_utf8(stderr@) ==> error@ == print_failure(exists, pname@, decode_utf8(stderr@)),
{
    classify_print_failure(exists, pname, from_utf8_lossy(stderr))
}

impl DevEnvView {
    /// What has to be done for the run to go on.
    pub open spec fn action(self) -> DevelopActionView {
        match self {
            DevEnvView::Printing { drv_path, .. } => DevelopActionView::PrintDevEnv {
                subcommand: PRINT_DEV_ENV@,
                drv_path,
            },
            DevEnvView::Probing { drv_path, .. } => DevelopActionView::Probe { path: drv_path },
            DevEnvView::Creating { temp_dir, .. } => DevelopActionView::CreateFile {
                dir: temp_dir,
            },
            DevEnvView::Writing { script, path } => DevelopActionView::WriteFile {
                path,
                contents: script,
            },
            DevEnvView::Ended(_) => DevelopActionView::Nothing,
        }
    }

    /// The run after `event`. An event that does not answer the run's action changes nothing.
    pub open spec fn step(self, event: DevelopEventView) -> DevEnvView {
        match (self, event) {
            (
                DevEnvView::Printing { drv_path, pname, temp_dir },
                DevelopEventView::Printed(Ok(output)),
            ) => if output.success {
                DevEnvView::Creating { script: output.stdout, temp_dir }
            } else {
                DevEnvView::Probing { drv_path, pname, stderr: output.stderr }
            },
            (DevEnvView::Printing { .. }, DevelopEventView::Printed(Err(error))) => {
                DevEnvView::Ended(Err(DevelopErrorView::CallPrintDevEnv(error)))
            },
            (DevEnvView::Probing { pname, stderr, .. }, DevelopEventView::Probed(exists)) => {
                DevEnvView::Ended(Err(print_failure(exists, pname, utf8_lossy(stderr))))
            },
            (DevEnvView::Creating { script, .. }, DevelopEventView::FileCreated(Ok(path))) => {
                DevEnvView::Writing { script, path }
            },
            (DevEnvView::Creating { .. }, DevelopEventView::FileCreated(Err(error))) => {
                DevEnvView::Ended(Err(DevelopErrorView::CreateEnvScriptFile(error)))
            },
            (DevEnvView::Writing { path, .. }, DevelopEventView::FileWritten(Ok(()))) => {
                DevEnvView::Ended(Ok(path))
            },
            (DevEnvView::Writing { .. }, DevelopEventView::FileWritten(Err(error))) => {
                DevEnvView::Ended(Err(DevelopErrorView::CreateEnvScriptFile(error)))
            },
            _ => self,
        }
    }
}

impl Develop {
    /// Realises the inputs of the derivation at `drv_path` and captures the output of
    /// `nix print-dev-env` in a file under `temp_dir`.
    ///
    /// `nix print-dev-env` realises the derivation's inputs and a wrapper derivation that
    /// dumps the environment. It does not run the package's build phases, which is what lets
    /// a package that fails to build still yield a shell.
    ///
    /// The derivation is not protected from garbage collection between its evaluation and
    /// this. A look at the start could not close that gap, so the derivation is looked for
    /// only once printing has failed.
    pub fn print_dev_env(drv_path: Vec<u8>, pname: String, temp_dir: Vec<u8>) -> (run: DevEnvRun)
        ensures
            run@ == (DevEnvView::Printing {
                drv_path: drv_path@,
                pname: pname@,
                temp_dir: temp_dir@,
            }),
    {
        DevEnvRun::Printing { drv_path, pname, temp_dir }
    }
}

impl DevEnvRun {
    /// What has to be done for the run to go on.
    pub fn action(&self) -> (action: DevelopAction<'_>)
        ensures
            action@ == self@.action(),
    {
        match self {
            DevEnvRun::Printing { drv_path, .. } => DevelopAction::PrintDevEnv {
                subcommand: PRINT_DEV_ENV,
                drv_path,
            },
            DevEnvRun::Probing { drv_path, .. } => DevelopAction::Probe { path: drv_path },
            DevEnvRun::Creating { temp_dir, .. } => DevelopAction::CreateFile { dir: temp_dir },
            DevEnvRun::Writing { script, path } => DevelopAction::WriteFile {
                path,
                contents: script.as_slice(),
            },
            DevEnvRun::Ended(_) => DevelopAction::Nothing,
        }
    }

    /// The run after `event`. An event that does not answer the run's action changes nothing.
    /// What nix wrote in valid UTF-8 is told as it stands.
    pub fn step(self, event: DevelopEvent) -> (run: DevEnvRun)
        ensures
            run@ == self@.step(event@),
            match (self@, event@) {
                (DevEnvView::Probing { pname, stderr, .. }, DevelopEventView::Probed(exists)) => {
                    valid_utf8(stderr) ==> run@ == DevEnvView::Ended(
                        Err(print_failure(exists, pname, decode_utf8(stderr))),
                    )
                },
                _ => true,
            },
    {
        match (self, event) {
            (DevEnvRun::Printing { drv_path, pname, temp_dir }, DevelopEvent::Printed(reply)) => {
                match reply {
                    Ok(output) => if output.success {
                        DevEnvRun::Creating { script: output.stdout, temp_dir }
                    } else {
                        DevEnvRun::Probing { drv_path, pname, stderr: output.stderr }
                    },
                    Err(error) => DevEnvRun::Ended(Err(DevelopError::CallPrintDevEnv(error))),
                }
            },
            (
                DevEnvRun::Probing { drv_path: _, pname, stderr },
                DevelopEvent::Probed(exists),
            ) => DevEnvRun::Ended(
                Err(report_print_failure(exists, pname, stderr.as_slice())),
            ),
            (
                DevEnvRun::Creating { script, temp_dir: _ },
                DevelopEvent::FileCreated(reply),
            ) => match reply {
                Ok(path) => DevEnvRun::Writing { script, path },
                Err(error) => DevEnvRun::Ended(Err(DevelopError::CreateEnvScriptFile(error))),
            },
            (DevEnvRun::Writing { script: _, path }, DevelopEvent::FileWritten(reply)) => {
                match reply {
                    Ok(()) => DevEnvRun::Ended(Ok(path)),
                    Err(error) => DevEnvRun::Ended(Err(DevelopError::CreateEnvScriptFile(error))),
                }
            },
            (run, _) => run,
        }
    }
}

/// What comes of each action that a [DevEnvRun] can ask for.
pub struct DevEnvWorld {
    pub printed: Result<OutputView, std::io::Error>,
    /// Whether the derivation still exists once printing has failed.
    pub exists: bool,
    pub created: Result<Seq<u8>, std::io::Error>,
    pub written: Result<(), std::io::Error>,
}

/// What capturing the build environment of `pname` comes to: the path of the file that the
/// environment was printed into, or what kept it from being made.
pub open spec fn dev_env(pname: Seq<char>, world: DevEnvWorld) -> Result<
    Seq<u8>,
    DevelopErrorView,
> {
    match world.printed {
        Err(error) => Err(DevelopErrorView::CallPrintDevEnv(error)),
        Ok(output) => if !output.success {
            Err(print_failure(world.exists, pname, utf8_lossy(output.stderr)))
        } else {
            match (world.created, world.written) {
                (Err(error), _) => Err(DevelopErrorView::CreateEnvScriptFile(error)),
                (Ok(_), Err(error)) => Err(DevelopErrorView::CreateEnvScriptFile(error)),
                (Ok(path), Ok(())) => Ok(path),
            }
        },
    }
}

/// However a capture is answered, it ends with what capturing comes to.
pub proof fn dev_env_run_ends(
    drv_path: Seq<u8>,
    pname: Seq<char>,
    temp_dir: Seq<u8>,
    world: DevEnvWorld,
)
    ensures
        (DevEnvView::Printing { drv_path, pname, temp_dir }).step(
            DevelopEventView::Printed(world.printed),
        ).step(DevelopEventView::Probed(world.exists)).step(
            DevelopEventView::FileCreated(world.created),
        ).step(DevelopEventView::FileWritten(world.written)) == DevEnvView::Ended(
            dev_env(pname, world),
        ),
{
}

/// An event moves a run exactly when it answers the run's action.
pub proof fn dev_env_moves_by_answers(run: DevEnvView, event: DevelopEventView)
    ensures
        run.step(event) != run <==> event.answers(run.action()),
{
}

/// What is captured is written as it was printed, and only once printing has succeeded.
pub proof fn script_is_what_was_printed(
    drv_path: Seq<u8>,
    pname: Seq<char>,
    temp_dir: Seq<u8>,
    world: DevEnvWorld,
)
    ensures
        ({
            let run = (DevEnvView::Printing { drv_path, pname, temp_dir }).step(
                DevelopEventView::Printed(world.printed),
            );
            &&& run.action() matches DevelopActionView::CreateFile { dir } ==> {
                &&& world.printed matches Ok(output)
                &&& output.success
                &&& dir == temp_dir
            }
            &&& run.step(
                DevelopEventView::FileCreated(world.created),
            ).action() matches DevelopActionView::WriteFile { path, contents } ==> {
                &&& world.printed matches Ok(output)
                &&& output.success
                &&& contents == output.stdout
                &&& world.created == Ok::<_, std::io::Error>(path)
            }
        }),
{
}

/// A derivation that was collected before its environment could be printed is reported as
/// such, and not in nix's own words; it is looked for only once printing has failed.
pub proof fn collected_derivation_is_reported_as_such(
    drv_path: Seq<u8>,
    pname: Seq<char>,
    temp_dir: Seq<u8>,
    world: DevEnvWorld,
)
    ensures
        dev_env(pname, world) == Err::<Seq<u8>, DevelopErrorView>(
            DevelopErrorView::DerivationGarbageCollected { pname },
        ) <==> (world.printed matches Ok(output) && !output.success && !world.exists),
        dev_env(pname, world) matches Err(DevelopErrorView::PrintDevEnv { .. }) ==> world.exists,
        !((DevEnvView::Printing { drv_path, pname, temp_dir }).action() is Probe),
        (DevEnvView::Printing { drv_path, pname, temp_dir }).step(
            DevelopEventView::Printed(world.printed),
        ).action() is Probe <==> (world.printed matches Ok(output) && !output.success),
{
}

/// A captured environment ends in the file that was created for it: the file is created in the
/// directory for temporary files, what nix printed is written into it, and its path, not what
/// it holds, is what the capture ends with.
pub proof fn capture_ends_with_the_created_file(
    drv_path: Seq<u8>,
    pname: Seq<char>,
    temp_dir: Seq<u8>,
    output: OutputView,
    path: Seq<u8>,
    error: std::io::Error,
)
    requires
        output.success,
    ensures
        ({
            let printing = DevEnvView::Printing { drv_path, pname, temp_dir };
            let creating = printing.step(DevelopEventView::Printed(Ok(output)));
            let writing = creating.step(DevelopEventView::FileCreated(Ok(path)));
            &&& printing.action() == (DevelopActionView::PrintDevEnv {
                subcommand: "print-dev-env"@,
                drv_path,
            })
            &&& creating.action() == (DevelopActionView::CreateFile { dir: temp_dir })
            &&& writing.action() == (DevelopActionView::WriteFile {
                path,
                contents: output.stdout,
            })
            &&& writing.step(DevelopEventView::FileWritten(Ok(()))) == DevEnvView::Ended(Ok(path))
            &&& creating.step(DevelopEventView::FileCreated(Err(error))) == DevEnvView::Ended(
                Err(DevelopErrorView::CreateEnvScriptFile(error)),
            )
            &&& writing.step(DevelopEventView::FileWritten(Err(error))) == DevEnvView::Ended(
                Err(DevelopErrorView::CreateEnvScriptFile(error)),
            )
        }),
{
}

/// What keeps the environment from being printed is told apart: nix that cannot be called, a
/// derivation that is gone, and a derivation that is there, of which nix's words are told.
pub proof fn failure_to_print_is_told_apart(
    drv_path: Seq<u8>,
    pname: Seq<char>,
    temp_dir: Seq<u8>,
    output: OutputView,
    error: std::io::Error,
)
    requires
        !output.success,
    ensures
        ({
            let printing = DevEnvView::Printing { drv_path, pname, temp_dir };
            let probing = printing.step(DevelopEventView::Printed(Ok(output)));
            &&& printing.step(DevelopEventView::Printed(Err(error))) == DevEnvView::Ended(
                Err(DevelopErrorView::CallPrintDevEnv(error)),
            )
            &&& probing.action() == (DevelopActionView::Probe { path: drv_path })
            &&& probing.step(DevelopEventView::Probed(false)) == DevEnvView::Ended(
                Err(DevelopErrorView::DerivationGarbageCollected { pname }),
            )
            &&& probing.step(DevelopEventView::Probed(true)) == DevEnvView::Ended(
                Err(DevelopErrorView::PrintDevEnv { pname, stderr: utf8_lossy(output.stderr) }),
            )
        }),
{
}

/// What capturing comes to is the path of the created file exactly when printing, creating and
/// writing all succeed.
pub proof fn capture_comes_to_the_created_file(
    pname: Seq<char>,
    world: DevEnvWorld,
    path: Seq<u8>,
)
    ensures
        dev_env(pname, world) == Ok::<Seq<u8>, DevelopErrorView>(path) <==> {
            &&& world.printed matches Ok(output)
            &&& output.success
            &&& world.created == Ok::<_, std::io::Error>(path)
            &&& world.written is Ok
        },
{
}

/// A failure to print is that of a collected derivation exactly when the derivation is gone.
pub proof fn print_failures_depend_on_the_derivation(pname: Seq<char>, stderr: Seq<char>)
    ensures
        print_failure(true, pname, stderr) == (DevelopErrorView::PrintDevEnv { pname, stderr }),
        print_failure(false, pname, stderr) == (DevelopErrorView::DerivationGarbageCollected {
            pname,
        }),
{
}

/// What a capture that has ended stands for is what it ended with, and it asks for nothing.
pub proof fn ended_capture_stands_for_its_end(ended: Result<Vec<u8>, DevelopError>)
    ensures
        match ended {
            Ok(path) => DevEnvRun::Ended(ended)@ == DevEnvView::Ended(Ok(path@)),
            Err(error) => DevEnvRun::Ended(ended)@ == DevEnvView::Ended(Err(error@)),
        },
        DevEnvRun::Ended(ended)@.action() == DevelopActionView::Nothing,
{
}

} // verus!

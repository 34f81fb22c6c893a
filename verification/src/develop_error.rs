//! The ways in which a development shell can fail to come about.

use vstd::prelude::*;

use crate::error::CatalogLockError;

verus! {

/// What a development shell's environment or rcfile failed on.
#[derive(Debug)]
pub enum DevelopError {
    CallPrintDevEnv(std::io::Error),
    CreateEnvScriptFile(std::io::Error),
    CreateRcFile(std::io::Error),
    PrintDevEnv { pname: String, stderr: String },
    DerivationGarbageCollected { pname: String },
}

/// What a [DevelopError] stands for.
pub enum DevelopErrorView {
    CallPrintDevEnv(std::io::Error),
    CreateEnvScriptFile(std::io::Error),
    CreateRcFile(std::io::Error),
    PrintDevEnv { pname: Seq<char>, stderr: Seq<char> },
    DerivationGarbageCollected { pname: Seq<char> },
}

impl View for DevelopError {
    type V = DevelopErrorView;

    open spec fn view(&self) -> DevelopErrorView {
        match *self {
            DevelopError::CallPrintDevEnv(error) => DevelopErrorView::CallPrintDevEnv(error),
            DevelopError::CreateEnvScriptFile(error) => DevelopErrorView::CreateEnvScriptFile(
                error,
            ),
            DevelopError::CreateRcFile(error) => DevelopErrorView::CreateRcFile(error),
            DevelopError::PrintDevEnv { pname, stderr } => DevelopErrorView::PrintDevEnv {
                pname: pname@,
                stderr: stderr@,
            },
            DevelopError::DerivationGarbageCollected { pname } => {
                DevelopErrorView::DerivationGarbageCollected { pname: pname@ }
            },
        }
    }
}

impl DevelopErrorView {
    /// The message that reports the error.
    pub open spec fn text(self) -> Seq<char> {
        match self {
            DevelopErrorView::CallPrintDevEnv(_) => "Failed to call 'nix print-dev-env'"@,
            DevelopErrorView::CreateEnvScriptFile(
                _,
            ) => "failed to write the development shell's environment script"@,
            DevelopErrorView::CreateRcFile(
                _,
            ) => "failed to write the development shell's rcfile"@,
            DevelopErrorView::PrintDevEnv { pname, stderr } => {
                "Failed to build the development environment for '"@ + pname + "'\n"@ + stderr
            },
            DevelopErrorView::DerivationGarbageCollected { pname } => {
                "The derivation for '"@ + pname
                    + "' was garbage collected between evaluation and use.\nPlease try again."@
            },
        }
    }
}

impl DevelopError {
    /// The message that reports the error.
    pub fn message(&self) -> (message: String)
        ensures
            message@ == self@.text(),
    {
        match self {
            DevelopError::CallPrintDevEnv(_) => "Failed to call 'nix print-dev-env'".to_owned(),
            DevelopError::CreateEnvScriptFile(
                _,
            ) => "failed to write the development shell's environment script".to_owned(),
            DevelopError::CreateRcFile(
                _,
            ) => "failed to write the development shell's rcfile".to_owned(),
            DevelopError::PrintDevEnv { pname, stderr } => {
                let mut message = "Failed to build the development environment for '".to_owned();
                message.append(pname.as_str());
                message.append("'\n");
                message.append(stderr.as_str());
                message
            },
            DevelopError::DerivationGarbageCollected { pname } => {
                let mut message = "The derivation for '".to_owned();
                message.append(pname.as_str());
                message.append(
                    "' was garbage collected between evaluation and use.\nPlease try again.",
                );
                message
            },
        }
    }
}

/// Why `flox develop` ended without a shell.
#[derive(Debug)]
pub enum DevelopFailure {
    /// The environment has no project files, for the reason given.
    Environment(String),
    /// The package is a manifest build, which is refused with this guidance.
    ManifestBuild(String),
    CatalogLock(CatalogLockError),
    Shell(DevelopError),
    /// The shell could not be started.
    Exec(std::io::Error),
    /// A step that this crate takes no part in failed, for the reason given.
    Step(String),
}

/// What a [DevelopFailure] stands for.
pub enum DevelopFailureView {
    Environment(Seq<char>),
    ManifestBuild(Seq<char>),
    CatalogLock(CatalogLockError),
    Shell(DevelopErrorView),
    Exec(std::io::Error),
    Step(Seq<char>),
}

impl View for DevelopFailure {
    type V = DevelopFailureView;

    open spec fn view(&self) -> DevelopFailureView {
        match *self {
            DevelopFailure::Environment(reason) => DevelopFailureView::Environment(reason@),
            DevelopFailure::ManifestBuild(refusal) => DevelopFailureView::ManifestBuild(refusal@),
            DevelopFailure::CatalogLock(error) => DevelopFailureView::CatalogLock(error),
            DevelopFailure::Shell(error) => DevelopFailureView::Shell(error@),
            DevelopFailure::Exec(error) => DevelopFailureView::Exec(error),
            DevelopFailure::Step(reason) => DevelopFailureView::Step(reason@),
        }
    }
}

impl DevelopFailureView {
    /// The message that reports the failure.
    pub open spec fn text(self) -> Seq<char> {
        match self {
            DevelopFailureView::Environment(reason) => reason,
            DevelopFailureView::ManifestBuild(refusal) => refusal,
            DevelopFailureView::CatalogLock(error) => error.text(),
            DevelopFailureView::Shell(error) => error.text(),
            DevelopFailureView::Exec(_) => "failed to exec development shell"@,
            DevelopFailureView::Step(reason) => reason,
        }
    }
}

impl DevelopFailure {
    /// The message that reports the failure.
    pub fn message(&self) -> (message: String)
        ensures
            message@ == self@.text(),
    {
        match self {
            DevelopFailure::Environment(reason) => reason.clone(),
            DevelopFailure::ManifestBuild(refusal) => refusal.clone(),
            DevelopFailure::CatalogLock(error) => error.message(),
            DevelopFailure::Shell(error) => error.message(),
            DevelopFailure::Exec(_) => "failed to exec development shell".to_owned(),
            DevelopFailure::Step(reason) => reason.clone(),
        }
    }
}

/// What an error stands for is what it carries.
pub proof fn develop_errors_stand_for_what_they_carry(error: DevelopError)
    ensures
        match error {
            DevelopError::CallPrintDevEnv(cause) => error@ == DevelopErrorView::CallPrintDevEnv(
                cause,
            ),
            DevelopError::CreateEnvScriptFile(cause) => error@
                == DevelopErrorView::CreateEnvScriptFile(cause),
            DevelopError::CreateRcFile(cause) => error@ == DevelopErrorView::CreateRcFile(cause),
            DevelopError::PrintDevEnv { pname, stderr } => error@ == (
            DevelopErrorView::PrintDevEnv { pname: pname@, stderr: stderr@ }),
            DevelopError::DerivationGarbageCollected { pname } => error@ == (
            DevelopErrorView::DerivationGarbageCollected { pname: pname@ }),
        },
{
}

/// The message for a package names the package, and tells what nix said as it stands.
pub proof fn develop_errors_name_the_package(pname: Seq<char>, stderr: Seq<char>)
    ensures
        (DevelopErrorView::PrintDevEnv { pname, stderr }).text()
            == "Failed to build the development environment for '"@ + pname + "'\n"@ + stderr,
        (DevelopErrorView::DerivationGarbageCollected { pname }).text() == "The derivation for '"@
            + pname + "' was garbage collected between evaluation and use.\nPlease try again."@,
{
}

/// What an error of the system is told as depends on what it kept from happening alone.
pub proof fn system_errors_are_told_by_what_they_prevent(cause: std::io::Error)
    ensures
        DevelopErrorView::CallPrintDevEnv(cause).text() == "Failed to call 'nix print-dev-env'"@,
        DevelopErrorView::CreateEnvScriptFile(cause).text()
            == "failed to write the development shell's environment script"@,
        DevelopErrorView::CreateRcFile(cause).text()
            == "failed to write the development shell's rcfile"@,
        DevelopFailureView::Exec(cause).text() == "failed to exec development shell"@,
{
}

/// What a failure stands for is what it carries, and it is told in the words of that.
pub proof fn failures_are_told_in_their_own_words(failure: DevelopFailure)
    ensures
        match failure {
            DevelopFailure::Environment(reason) => {
                &&& failure@ == DevelopFailureView::Environment(reason@)
                &&& failure@.text() == reason@
            },
            DevelopFailure::ManifestBuild(refusal) => {
                &&& failure@ == DevelopFailureView::ManifestBuild(refusal@)
                &&& failure@.text() == refusal@
            },
            DevelopFailure::CatalogLock(error) => {
                &&& failure@ == DevelopFailureView::CatalogLock(error)
                &&& failure@.text() == error.text()
            },
            DevelopFailure::Shell(error) => {
                &&& failure@ == DevelopFailureView::Shell(error@)
                &&& failure@.text() == error@.text()
            },
            DevelopFailure::Exec(cause) => failure@ == DevelopFailureView::Exec(cause),
            DevelopFailure::Step(reason) => {
                &&& failure@ == DevelopFailureView::Step(reason@)
                &&& failure@.text() == reason@
            },
        },
{
}

} // verus!

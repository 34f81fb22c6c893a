//! How a build comes by the catalog lock it consumes.

use vstd::prelude::*;

use crate::build_lock::{BuildLock, LockView, LockedInputEntry};
use crate::catalog_lock::{
    build_catalog_lock_from_parts,
    catalog_lockfile_path,
    ephemeral_path_is_no_lockfile,
    is_ephemeral_path,
    lockfile_path,
    request_outcome,
    resolution,
    resolve_lock,
    resolve_reply,
    BuildCatalogLock,
    BuildLockView,
    CatalogAction,
    CatalogActionView,
    CatalogEvent,
    CatalogEventView,
    TempFile,
    TempView,
    EPHEMERAL_LOCK_PREFIX,
};
use crate::error::{CatalogLockError, LockError, LockfileError, ScanError};
use crate::references::{RefSet, RefView};
use crate::scan::{
    scan_failed_at,
    scan_is_union,
    scan_references,
    scanned,
    ScanReply,
    ScanRun,
    ScanView,
};

verus! {

/// The making of a [BuildCatalogLock], as far as it has come.
#[derive(Debug)]
pub enum EnsureRun {
    /// It is not known yet whether the project has a committed lock.
    Probing { committed: Vec<u8>, scan: ScanRun, temp_dir: Vec<u8> },
    /// There is a committed lock to read.
    Reading { committed: Vec<u8> },
    /// There is none, and the expressions are being scanned.
    Scanning { scan: ScanRun, temp_dir: Vec<u8> },
    /// The references found are to be locked.
    Locking { references: RefSet, temp_dir: Vec<u8> },
    /// The lock needs a file.
    Creating { lock: BuildLock, temp_dir: Vec<u8> },
    /// The lock is to be written into its file.
    Writing { lock: BuildLock, file: TempFile },
    /// The lock is there, or there will be none.
    Ended(Result<BuildCatalogLock, CatalogLockError>),
}

/// What an [EnsureRun] stands for.
#[verifier::ext_equal]
pub enum EnsureView {
    Probing { committed: Seq<u8>, scan: ScanView, temp_dir: Seq<u8> },
    Reading { committed: Seq<u8> },
    Scanning { scan: ScanView, temp_dir: Seq<u8> },
    Locking { references: Set<RefView>, temp_dir: Seq<u8> },
    Creating { lock: LockView, temp_dir: Seq<u8> },
    Writing { lock: LockView, file: TempView },
    Ended(Result<BuildLockView, CatalogLockError>),
}

impl View for EnsureRun {
    type V = EnsureView;

    open spec fn view(&self) -> EnsureView {
        match *self {
            EnsureRun::Probing { committed, scan, temp_dir } => EnsureView::Probing {
                committed: committed@,
                scan: scan@,
                temp_dir: temp_dir@,
            },
            EnsureRun::Reading { committed } => EnsureView::Reading { committed: committed@ },
            EnsureRun::Scanning { scan, temp_dir } => EnsureView::Scanning {
                scan: scan@,
                temp_dir: temp_dir@,
            },
            EnsureRun::Locking { references, temp_dir } => EnsureView::Locking {
                references: references@,
                temp_dir: temp_dir@,
            },
            EnsureRun::Creating { lock, temp_dir } => EnsureView::Creating {
                lock: lock@,
                temp_dir: temp_dir@,
            },
            EnsureRun::Writing { lock, file } => EnsureView::Writing { lock: lock@, file: file@ },
            EnsureRun::Ended(Ok(built)) => EnsureView::Ended(Ok(built@)),
            EnsureRun::Ended(Err(error)) => EnsureView::Ended(Err(error)),
        }
    }
}

impl EnsureView {
    /// The run before anything is known.
    pub open spec fn start(
        dot_flox: Seq<u8>,
        expressions_dir: Seq<u8>,
        files: Seq<Seq<u8>>,
        temp_dir: Seq<u8>,
    ) -> EnsureView {
        EnsureView::Probing {
            committed: lockfile_path(dot_flox),
            scan: ScanView::start(expressions_dir, files),
            temp_dir,
        }
    }

    /// The run with the scan at `scan`: with every file scanned, the references are locked,
    /// where there are any.
    pub open spec fn scanning(scan: ScanView, temp_dir: Seq<u8>) -> EnsureView {
        if !scan.complete() {
            EnsureView::Scanning { scan, temp_dir }
        } else if scan.references == Set::<RefView>::empty() {
            EnsureView::Creating { lock: LockView::empty(), temp_dir }
        } else {
            EnsureView::Locking { references: scan.references, temp_dir }
        }
    }

    /// What has to be done for the run to go on.
    pub open spec fn action(self) -> CatalogActionView {
        match self {
            EnsureView::Probing { committed, .. } => CatalogActionView::Probe { path: committed },
            EnsureView::Reading { committed } => CatalogActionView::Read { path: committed },
            EnsureView::Scanning { scan, .. } => if scan.complete() {
                CatalogActionView::Nothing
            } else {
                CatalogActionView::Scan { dir: scan.dir, file: scan.files[scan.done as int] }
            },
            EnsureView::Locking { references, .. } => CatalogActionView::Lock { references },
            EnsureView::Creating { temp_dir, .. } => CatalogActionView::CreateTemp {
                dir: temp_dir,
                prefix: EPHEMERAL_LOCK_PREFIX@,
            },
            EnsureView::Writing { lock, file } => CatalogActionView::Write {
                lock,
                path: file.path,
            },
            EnsureView::Ended(_) => CatalogActionView::Nothing,
        }
    }

    /// The run after `event`. An event that does not answer the run's action changes nothing.
    pub open spec fn step(self, event: CatalogEventView) -> EnsureView {
        match (self, event) {
            (EnsureView::Probing { committed, .. }, CatalogEventView::Probed(true)) => {
                EnsureView::Reading { committed }
            },
            (EnsureView::Probing { scan, temp_dir, .. }, CatalogEventView::Probed(false)) => {
                EnsureView::scanning(scan, temp_dir)
            },
            (EnsureView::Reading { committed }, CatalogEventView::Read(Ok(lock))) => {
                EnsureView::Ended(Ok(BuildLockView { path: committed, lock, ephemeral: None }))
            },
            (EnsureView::Reading { .. }, CatalogEventView::Read(Err(error))) => {
                EnsureView::Ended(Err(CatalogLockError::Lockfile(error)))
            },
            (EnsureView::Scanning { scan, temp_dir }, CatalogEventView::Scanned(reply)) => {
                if scan.complete() {
                    self
                } else {
                    match reply {
                        Ok(found) => EnsureView::scanning(scan.found(found), temp_dir),
                        Err(error) => EnsureView::Ended(Err(CatalogLockError::Scan(error))),
                    }
                }
            },
            (EnsureView::Locking { temp_dir, .. }, CatalogEventView::Locked(reply)) => {
                match request_outcome(reply) {
                    Ok(lock) => EnsureView::Creating { lock, temp_dir },
                    Err(error) => EnsureView::Ended(Err(error)),
                }
            },
            (EnsureView::Creating { lock, .. }, CatalogEventView::TempCreated(Ok(file))) => {
                EnsureView::Writing { lock, file }
            },
            (EnsureView::Creating { .. }, CatalogEventView::TempCreated(Err(error))) => {
                EnsureView::Ended(Err(CatalogLockError::CreateTempFile(error)))
            },
            (EnsureView::Writing { lock, file }, CatalogEventView::Written(Ok(()))) => {
                EnsureView::Ended(
                    Ok(BuildLockView { path: file.path, lock, ephemeral: Some(file.guard) }),
                )
            },
            (EnsureView::Writing { .. }, CatalogEventView::Written(Err(error))) => {
                EnsureView::Ended(Err(CatalogLockError::Lockfile(error)))
            },
            _ => self,
        }
    }
}

impl BuildCatalogLock {
    /// The committed `.flox/catalog.lock` exactly as found when one exists; otherwise a fresh
    /// ephemeral lock that resolves the union of the references of the expressions named by
    /// `rel_file_paths`, written to a randomly named temp file under `temp_dir` that is
    /// removed when the value that the run ends with is dropped.
    pub fn ensure(
        dot_flox_path: &[u8],
        expressions_dir: Vec<u8>,
        rel_file_paths: Vec<Vec<u8>>,
        temp_dir: Vec<u8>,
    ) -> (run: EnsureRun)
        ensures
            run@ == EnsureView::start(
                dot_flox_path@,
                expressions_dir@,
                rel_file_paths.deep_view(),
                temp_dir@,
            ),
    {
        EnsureRun::Probing {
            committed: catalog_lockfile_path(dot_flox_path),
            scan: scan_references(expressions_dir, rel_file_paths),
            temp_dir,
        }
    }
}

impl EnsureRun {
    fn scanning(scan: ScanRun, temp_dir: Vec<u8>) -> (run: EnsureRun)
        ensures
            run@ == EnsureView::scanning(scan@, temp_dir@),
    {
        if scan.next_file().is_some() {
            return EnsureRun::Scanning { scan, temp_dir };
        }
        let references = scan.into_references();
        match resolve_lock(&references) {
            Some(lock) => EnsureRun::Creating { lock, temp_dir },
            None => EnsureRun::Locking { references, temp_dir },
        }
    }

    /// What has to be done for the run to go on.
    pub fn action(&self) -> (action: CatalogAction<'_>)
        ensures
            action@ == self@.action(),
    {
        match self {
            EnsureRun::Probing { committed, .. } => CatalogAction::Probe { path: committed },
            EnsureRun::Reading { committed } => CatalogAction::Read { path: committed },
            EnsureRun::Scanning { scan, .. } => match scan.next_file() {
                Some(file) => CatalogAction::Scan { dir: scan.dir(), file },
                None => CatalogAction::Nothing,
            },
            EnsureRun::Locking { references, .. } => CatalogAction::Lock { references },
            EnsureRun::Creating { temp_dir, .. } => CatalogAction::CreateTemp {
                dir: temp_dir,
                prefix: EPHEMERAL_LOCK_PREFIX,
            },
            EnsureRun::Writing { lock, file } => CatalogAction::Write { lock, path: &file.path },
            EnsureRun::Ended(_) => CatalogAction::Nothing,
        }
    }

    /// The run after `event`. An event that does not answer the run's action changes nothing.
    pub fn step(self, event: CatalogEvent) -> (run: EnsureRun)
        ensures
            run@ == self@.step(event@),
    {
        match (self, event) {
            (EnsureRun::Probing { committed, scan, temp_dir }, CatalogEvent::Probed(exists)) => {
                if exists {
                    EnsureRun::Reading { committed }
                } else {
                    EnsureRun::scanning(scan, temp_dir)
                }
            },
            (EnsureRun::Reading { committed }, CatalogEvent::Read(reply)) => match reply {
                Ok(lock) => EnsureRun::Ended(
                    Ok(build_catalog_lock_from_parts(committed, lock, None)),
                ),
                Err(error) => EnsureRun::Ended(Err(CatalogLockError::Lockfile(error))),
            },
            (EnsureRun::Scanning { scan, temp_dir }, CatalogEvent::Scanned(reply)) => {
                if scan.next_file().is_none() {
                    return EnsureRun::Scanning { scan, temp_dir };
                }
                match reply {
                    Ok(found) => EnsureRun::scanning(scan.record(&found), temp_dir),
                    Err(error) => EnsureRun::Ended(Err(CatalogLockError::Scan(error))),
                }
            },
            (EnsureRun::Locking { references: _, temp_dir }, CatalogEvent::Locked(reply)) => {
                match resolve_reply(reply) {
                    Ok(lock) => EnsureRun::Creating { lock, temp_dir },
                    Err(error) => EnsureRun::Ended(Err(error)),
                }
            },
            (EnsureRun::Creating { lock, temp_dir: _ }, CatalogEvent::TempCreated(reply)) => {
                match reply {
                    Ok(file) => EnsureRun::Writing { lock, file },
                    Err(error) => EnsureRun::Ended(Err(CatalogLockError::CreateTempFile(error))),
                }
            },
            (EnsureRun::Writing { lock, file }, CatalogEvent::Written(reply)) => match reply {
                Ok(()) => EnsureRun::Ended(
                    Ok(build_catalog_lock_from_parts(file.path, lock, Some(file.guard))),
                ),
                Err(error) => EnsureRun::Ended(Err(CatalogLockError::Lockfile(error))),
            },
            (run, _) => run,
        }
    }
}

/// What a run is started with.
pub struct EnsureInput {
    pub dot_flox: Seq<u8>,
    pub expressions_dir: Seq<u8>,
    pub files: Seq<Seq<u8>>,
    pub temp_dir: Seq<u8>,
}

/// What comes of each action that a run can ask for.
pub struct EnsureWorld {
    /// Whether the project has a committed lock.
    pub committed: bool,
    pub read: Result<LockView, LockfileError>,
    /// What scanning each of the files gives.
    pub scans: Seq<ScanReply>,
    pub locked: Result<LockView, LockError>,
    pub created: Result<TempView, std::io::Error>,
    pub written: Result<(), LockfileError>,
}

impl EnsureWorld {
    /// The event that answers the action of `run`.
    pub open spec fn answer(self, run: EnsureView) -> CatalogEventView {
        match run {
            EnsureView::Probing { .. } => CatalogEventView::Probed(self.committed),
            EnsureView::Reading { .. } => CatalogEventView::Read(self.read),
            EnsureView::Scanning { scan, .. } => CatalogEventView::Scanned(
                self.scans[scan.done as int],
            ),
            EnsureView::Locking { .. } => CatalogEventView::Locked(self.locked),
            EnsureView::Creating { .. } => CatalogEventView::TempCreated(self.created),
            EnsureView::Writing { .. } => CatalogEventView::Written(self.written),
            EnsureView::Ended(_) => CatalogEventView::Written(self.written),
        }
    }
}

impl EnsureInput {
    /// The run that is started with this, before anything is known.
    pub open spec fn start(self) -> EnsureView {
        EnsureView::start(self.dot_flox, self.expressions_dir, self.files, self.temp_dir)
    }

    /// The run after `n` of its actions have been answered.
    pub open spec fn after(self, world: EnsureWorld, n: nat) -> EnsureView
        decreases n,
    {
        if n == 0 {
            self.start()
        } else {
            let run = self.after(world, (n - 1) as nat);
            run.step(world.answer(run))
        }
    }

    /// The lock that a build consumes: the committed lock as found, where there is one;
    /// otherwise the resolution of all references, in a temporary file.
    pub open spec fn ensured(self, world: EnsureWorld) -> Result<BuildLockView, CatalogLockError> {
        if world.committed {
            match world.read {
                Ok(lock) => Ok(
                    BuildLockView { path: lockfile_path(self.dot_flox), lock, ephemeral: None },
                ),
                Err(error) => Err(CatalogLockError::Lockfile(error)),
            }
        } else {
            match resolved(world) {
                Err(error) => Err(error),
                Ok(lock) => match world.created {
                    Err(error) => Err(CatalogLockError::CreateTempFile(error)),
                    Ok(file) => match world.written {
                        Err(error) => Err(CatalogLockError::Lockfile(error)),
                        Ok(()) => Ok(
                            BuildLockView { path: file.path, lock, ephemeral: Some(file.guard) },
                        ),
                    },
                },
            }
        }
    }

    /// Everything that is known of a run after `n` answers.
    spec fn reached(self, world: EnsureWorld, n: nat, run: EnsureView) -> bool {
        let last = self.files.len();
        match run {
            EnsureView::Probing { .. } => n == 0 && run == self.start(),
            EnsureView::Reading { committed } => {
                &&& n == 1
                &&& world.committed
                &&& committed == lockfile_path(self.dot_flox)
            },
            EnsureView::Scanning { scan, temp_dir } => {
                &&& n == scan.done + 1
                &&& !world.committed
                &&& !scan.complete()
                &&& scan.dir == self.expressions_dir
                &&& scan.files == self.files
                &&& scanned(world.scans.take(scan.done as int)) == Ok::<_, ScanError>(
                    scan.references,
                )
                &&& temp_dir == self.temp_dir
            },
            EnsureView::Locking { references, temp_dir } => {
                &&& n == last + 1
                &&& !world.committed
                &&& references != Set::<RefView>::empty()
                &&& scanned(world.scans) == Ok::<_, ScanError>(references)
                &&& temp_dir == self.temp_dir
            },
            EnsureView::Creating { lock, temp_dir } => {
                &&& last + 1 <= n <= last + 2
                &&& !world.committed
                &&& resolved(world) == Ok::<_, CatalogLockError>(lock)
                &&& temp_dir == self.temp_dir
            },
            EnsureView::Writing { lock, file } => {
                &&& last + 2 <= n <= last + 3
                &&& !world.committed
                &&& resolved(world) == Ok::<_, CatalogLockError>(lock)
                &&& world.created == Ok::<_, std::io::Error>(file)
            },
            EnsureView::Ended(outcome) => n > 0 && outcome == self.ensured(world),
        }
    }

    proof fn reaches(self, world: EnsureWorld, n: nat)
        requires
            world.scans.len() == self.files.len(),
        ensures
            self.reached(world, n, self.after(world, n)),
        decreases n,
    {
        if n > 0 {
            let before = (n - 1) as nat;
            self.reaches(world, before);
            let run = self.after(world, before);
            let next = self.after(world, n);
            match run {
                EnsureView::Probing { scan, .. } => {
                    assert(world.scans.take(0) =~= Seq::empty());
                    assert(self.files.len() == 0 ==> world.scans =~= Seq::empty());
                },
                EnsureView::Scanning { scan, .. } => {
                    let seen = world.scans.take(scan.done as int);
                    let more = world.scans.take(scan.done as int + 1);
                    assert(more.drop_last() =~= seen);
                    assert(more.last() == world.scans[scan.done as int]);
                    if scan.done + 1 == self.files.len() {
                        assert(more =~= world.scans);
                    }
                    if world.scans[scan.done as int] is Err {
                        scan_failed_at(world.scans, scan.done as int);
                    }
                },
                _ => {},
            }
        }
    }
}

/// What scanning all files and locking what they refer to comes to.
pub open spec fn resolved(world: EnsureWorld) -> Result<LockView, CatalogLockError> {
    match scanned(world.scans) {
        Err(error) => Err(CatalogLockError::Scan(error)),
        Ok(references) => resolution(references, world.locked),
    }
}

/// However a run is answered, it ends with the lock that a build consumes, after at most four
/// answers more than there are files.
pub proof fn ensure_ends_with_lock(input: EnsureInput, world: EnsureWorld, n: nat)
    requires
        world.scans.len() == input.files.len(),
        n >= input.files.len() + 4,
    ensures
        input.after(world, n) == EnsureView::Ended(input.ensured(world)),
{
    input.reaches(world, n);
}

/// A run that has ended has ended with the lock that a build consumes.
pub proof fn ensure_ends_only_with_lock(input: EnsureInput, world: EnsureWorld, n: nat)
    requires
        world.scans.len() == input.files.len(),
    ensures
        input.after(world, n) matches EnsureView::Ended(outcome) ==> outcome == input.ensured(
            world,
        ),
{
    input.reaches(world, n);
}

/// A run asks for nothing only when it has ended.
pub proof fn ensure_goes_on(input: EnsureInput, world: EnsureWorld, n: nat)
    requires
        world.scans.len() == input.files.len(),
    ensures
        input.after(world, n).action() is Nothing <==> input.after(world, n) is Ended,
{
    input.reaches(world, n);
}

/// An event moves a run exactly when it answers the run's action.
pub proof fn ensure_moves_by_answers(run: EnsureView, event: CatalogEventView)
    ensures
        run.step(event) != run <==> event.answers(run.action()),
{
}

/// A committed lock is consumed as found: it is looked for and read, and nothing is scanned,
/// requested, created or written.
pub proof fn committed_lock_is_only_read(input: EnsureInput, world: EnsureWorld, n: nat)
    requires
        world.scans.len() == input.files.len(),
        world.committed,
    ensures
        match input.after(world, n).action() {
            CatalogActionView::Probe { path } => path == lockfile_path(input.dot_flox),
            CatalogActionView::Read { path } => path == lockfile_path(input.dot_flox),
            CatalogActionView::Nothing => true,
            _ => false,
        },
        world.read matches Ok(lock) ==> input.ensured(world) == Ok::<_, CatalogLockError>(
            BuildLockView { path: lockfile_path(input.dot_flox), lock, ephemeral: None },
        ),
{
    input.reaches(world, n);
}

/// The catalog is asked at most once, for the references of all expressions together, and
/// only where there are any.
pub proof fn references_take_one_request(input: EnsureInput, world: EnsureWorld, n: nat)
    requires
        world.scans.len() == input.files.len(),
    ensures
        input.after(world, n).action() matches CatalogActionView::Lock { references } ==> {
            &&& n == input.files.len() + 1
            &&& references != Set::<RefView>::empty()
            &&& scanned(world.scans) == Ok::<_, ScanError>(references)
        },
{
    input.reaches(world, n);
}

/// Expressions without any reference need no request: they end with the empty lock, unless
/// its file cannot be made.
pub proof fn no_references_need_no_request(input: EnsureInput, world: EnsureWorld, n: nat)
    requires
        world.scans.len() == input.files.len(),
        scanned(world.scans) == Ok::<_, ScanError>(Set::<RefView>::empty()),
    ensures
        !(input.after(world, n).action() is Lock),
        !world.committed && input.ensured(world) is Ok ==> input.ensured(world)->Ok_0.lock
            == LockView::empty(),
{
    input.reaches(world, n);
}

/// Nothing is ever written into the project: the one file that is written is the temporary
/// file that was created for the lock, under the directory for temporary files.
pub proof fn only_the_temporary_file_is_written(input: EnsureInput, world: EnsureWorld, n: nat)
    requires
        world.scans.len() == input.files.len(),
    ensures
        input.after(world, n).action() matches CatalogActionView::Write { lock, path } ==> {
            &&& world.created is Ok
            &&& path == world.created->Ok_0.path
            &&& resolved(world) == Ok::<_, CatalogLockError>(lock)
        },
        input.after(world, n).action() matches CatalogActionView::CreateTemp { dir, prefix } ==> {
            &&& dir == input.temp_dir
            &&& prefix == EPHEMERAL_LOCK_PREFIX@
        },
{
    input.reaches(world, n);
}

/// A temporary file is asked for only once every expression is scanned and the references are
/// resolved: where that fails, none is made.
pub proof fn temporary_file_waits_for_the_references(
    input: EnsureInput,
    world: EnsureWorld,
    n: nat,
)
    requires
        world.scans.len() == input.files.len(),
    ensures
        input.after(world, n).action() is CreateTemp ==> {
            &&& !world.committed
            &&& scanned(world.scans) is Ok
            &&& resolved(world) is Ok
        },
{
    input.reaches(world, n);
}

/// A lock is ephemeral exactly when the project has no committed one, and an ephemeral lock
/// holds on to the temporary file that it was written to.
pub proof fn ephemeral_without_committed_lock(input: EnsureInput, world: EnsureWorld)
    requires
        input.ensured(world) is Ok,
    ensures
        input.ensured(world)->Ok_0.ephemeral is None <==> world.committed,
        !world.committed ==> {
            &&& world.created is Ok
            &&& input.ensured(world)->Ok_0.path == world.created->Ok_0.path
            &&& input.ensured(world)->Ok_0.ephemeral == Some(world.created->Ok_0.guard)
        },
{
}

/// A catalog that locks what it is asked to leaves no ephemeral lock stale: the lock has an
/// entry for every reference that the scan found.
pub proof fn ephemeral_lock_is_not_stale(
    input: EnsureInput,
    world: EnsureWorld,
    references: Set<RefView>,
)
    requires
        !world.committed,
        scanned(world.scans) matches Ok(found) && references.subset_of(found) && (
        world.locked matches Ok(lock) ==> lock.covers_all(found)),
        input.ensured(world) is Ok,
    ensures
        input.ensured(world)->Ok_0.lock.covers_all(references),
{
}

/// The lock that a build consumes is the project's own lock file exactly when that was there,
/// which is also exactly when the lock is not an ephemeral one; and the project's lock file is
/// never written to. The temporary file is one whose name begins as it was asked to.
pub proof fn lock_is_the_lockfile_exactly_when_committed(
    input: EnsureInput,
    world: EnsureWorld,
    n: nat,
)
    requires
        world.scans.len() == input.files.len(),
        world.created matches Ok(file) ==> is_ephemeral_path(file.path),
    ensures
        input.ensured(world) matches Ok(made) ==> {
            &&& made.path == lockfile_path(input.dot_flox) <==> world.committed
            &&& made.ephemeral is None <==> world.committed
        },
        input.after(world, n).action() matches CatalogActionView::Write { path, .. } ==> path
            != lockfile_path(input.dot_flox),
{
    input.reaches(world, n);
    if let Ok(file) = world.created {
        ephemeral_path_is_no_lockfile(file.path, input.dot_flox);
    }
}

/// Two ephemeral locks are apart: where their temporary files are different ones, named as they
/// were asked to be, the locks have different paths, neither of them is the lock file of either
/// project, and each lock holds on to its own file.
pub proof fn ephemeral_locks_are_apart(
    first: EnsureInput,
    first_world: EnsureWorld,
    second: EnsureInput,
    second_world: EnsureWorld,
)
    requires
        !first_world.committed,
        !second_world.committed,
        first.ensured(first_world) is Ok,
        second.ensured(second_world) is Ok,
        first_world.created->Ok_0.path != second_world.created->Ok_0.path,
        is_ephemeral_path(first_world.created->Ok_0.path),
        is_ephemeral_path(second_world.created->Ok_0.path),
    ensures
        ({
            let a = first.ensured(first_world)->Ok_0;
            let b = second.ensured(second_world)->Ok_0;
            &&& a.path != b.path
            &&& a.path != lockfile_path(first.dot_flox)
            &&& a.path != lockfile_path(second.dot_flox)
            &&& b.path != lockfile_path(first.dot_flox)
            &&& b.path != lockfile_path(second.dot_flox)
            &&& a.ephemeral == Some(first_world.created->Ok_0.guard)
            &&& b.ephemeral == Some(second_world.created->Ok_0.guard)
        }),
{
    let a = first.ensured(first_world)->Ok_0;
    let b = second.ensured(second_world)->Ok_0;
    ephemeral_path_is_no_lockfile(a.path, first.dot_flox);
    ephemeral_path_is_no_lockfile(a.path, second.dot_flox);
    ephemeral_path_is_no_lockfile(b.path, first.dot_flox);
    ephemeral_path_is_no_lockfile(b.path, second.dot_flox);
}

/// A catalog that locks what it is asked to gives an ephemeral lock that covers each of the
/// expressions by itself: whatever references the expression makes, the lock has entries for
/// them.
pub proof fn ephemeral_lock_covers_every_expression(
    input: EnsureInput,
    world: EnsureWorld,
    i: int,
)
    requires
        !world.committed,
        0 <= i < world.scans.len(),
        input.ensured(world) is Ok,
        scanned(world.scans) matches Ok(found) && (world.locked matches Ok(lock)
            ==> lock.covers_all(found)),
    ensures
        world.scans[i] matches Ok(references) && input.ensured(world)->Ok_0.lock.covers_all(
            references,
        ),
{
    scan_is_union(world.scans);
    assert(world.scans[i] is Ok);
    let found = scanned(world.scans)->Ok_0;
    assert(forall|r: RefView| #[trigger]
        world.scans[i]->Ok_0.contains(r) ==> found.contains(r));
}

/// A run is driven by what comes of its actions: it starts from what it was asked for, and each
/// step is that of the event which tells what came of the action before it.
pub proof fn ensure_run_is_driven_by_its_world(input: EnsureInput, world: EnsureWorld, n: nat)
    requires
        world.scans.len() == input.files.len(),
    ensures
        input.after(world, 0) == EnsureView::start(
            input.dot_flox,
            input.expressions_dir,
            input.files,
            input.temp_dir,
        ),
        ({
            let run = input.after(world, n);
            let event = world.answer(run);
            &&& input.after(world, n + 1) == run.step(event)
            &&& match run.action() {
                CatalogActionView::Probe { .. } => event == CatalogEventView::Probed(
                    world.committed,
                ),
                CatalogActionView::Read { .. } => event == CatalogEventView::Read(world.read),
                CatalogActionView::Scan { .. } => n >= 1 && event == CatalogEventView::Scanned(
                    world.scans[n - 1],
                ),
                CatalogActionView::Lock { .. } => event == CatalogEventView::Locked(world.locked),
                CatalogActionView::CreateTemp { .. } => event == CatalogEventView::TempCreated(
                    world.created,
                ),
                CatalogActionView::Write { .. } => event == CatalogEventView::Written(
                    world.written,
                ),
                CatalogActionView::Nothing => run is Ended && input.after(world, n + 1) == run,
            }
        }),
{
    input.reaches(world, n);
}

/// A committed lock is looked for and read at the project's lock file, and consumed as found:
/// that very lock, at that path, without a temporary file.
pub proof fn committed_lock_is_consumed_as_found(input: EnsureInput, world: EnsureWorld)
    ensures
        input.after(world, 0).action() == (CatalogActionView::Probe {
            path: lockfile_path(input.dot_flox),
        }),
        world.committed ==> {
            &&& input.after(world, 1).action() == (CatalogActionView::Read {
                path: lockfile_path(input.dot_flox),
            })
            &&& input.after(world, 2) == EnsureView::Ended(
                match world.read {
                    Ok(lock) => Ok(
                        BuildLockView { path: lockfile_path(input.dot_flox), lock, ephemeral: None },
                    ),
                    Err(error) => Err(CatalogLockError::Lockfile(error)),
                },
            )
        },
{
    let read = input.after(world, 1);
    assert(input.after(world, 0) == input.start());
    assert(input.after(world, 1) == input.after(world, 0).step(
        world.answer(input.after(world, 0)),
    ));
    assert(input.after(world, 2) == read.step(world.answer(read)));
}

/// Without a committed lock every expression is scanned, once and in its turn, relative to the
/// directory of the expressions, as long as no scan fails; and nothing else is ever scanned.
pub proof fn every_expression_is_scanned_in_its_turn(
    input: EnsureInput,
    world: EnsureWorld,
    n: nat,
)
    requires
        world.scans.len() == input.files.len(),
    ensures
        input.after(world, n).action() matches CatalogActionView::Scan { dir, file } ==> {
            &&& !world.committed
            &&& 1 <= n <= input.files.len()
            &&& dir == input.expressions_dir
            &&& file == input.files[n - 1]
            &&& forall|i: int| 0 <= i < n - 1 ==> #[trigger] world.scans[i] is Ok
        },
        !world.committed && 1 <= n <= input.files.len() && (forall|i: int|
            0 <= i < n - 1 ==> #[trigger] world.scans[i] is Ok) ==> input.after(world, n).action()
            == (CatalogActionView::Scan { dir: input.expressions_dir, file: input.files[n - 1] }),
    decreases n,
{
    input.reaches(world, n);
    if let EnsureView::Scanning { scan, .. } = input.after(world, n) {
        let seen = world.scans.take(scan.done as int);
        scan_is_union(seen);
        assert forall|i: int| 0 <= i < n - 1 implies #[trigger] world.scans[i] is Ok by {
            assert(seen[i] is Ok);
        }
    }
    if n > 0 {
        let before = (n - 1) as nat;
        every_expression_is_scanned_in_its_turn(input, world, before);
        input.reaches(world, before);
        if n > 1 && n <= input.files.len() && !world.committed && (forall|i: int|
            0 <= i < n - 1 ==> #[trigger] world.scans[i] is Ok) {
            assert(world.scans[n - 2] is Ok);
            assert(input.after(world, before).action() is Scan);
        }
    }
}

/// The first expression that cannot be scanned ends the run with that very error.
pub proof fn first_failing_scan_is_the_end(input: EnsureInput, world: EnsureWorld, i: int)
    requires
        world.scans.len() == input.files.len(),
        !world.committed,
        0 <= i < world.scans.len(),
        world.scans[i] is Err,
        forall|j: int| 0 <= j < i ==> #[trigger] world.scans[j] is Ok,
    ensures
        input.after(world, (i + 2) as nat) == EnsureView::Ended(
            Err(CatalogLockError::Scan(world.scans[i]->Err_0)),
        ),
{
    let n = (i + 1) as nat;
    every_expression_is_scanned_in_its_turn(input, world, n);
    input.reaches(world, n);
    assert(input.after(world, n + 1) == input.after(world, n).step(
        world.answer(input.after(world, n)),
    ));
}

/// With every expression scanned, the catalog is asked for exactly the references that some
/// expression makes; where none makes any, it is not asked, and a temporary file is next.
pub proof fn references_of_all_expressions_are_asked_for(
    input: EnsureInput,
    world: EnsureWorld,
    n: nat,
)
    requires
        world.scans.len() == input.files.len(),
        !world.committed,
        forall|i: int| 0 <= i < world.scans.len() ==> #[trigger] world.scans[i] is Ok,
        n == input.files.len() + 1,
    ensures
        (exists|i: int, r: RefView|
            0 <= i < world.scans.len() && #[trigger] world.scans[i]->Ok_0.contains(r)) ==> {
            &&& input.after(world, n).action() matches CatalogActionView::Lock { references }
            &&& forall|r: RefView| #[trigger]
                references.contains(r) <==> exists|i: int|
                    0 <= i < world.scans.len() && (#[trigger] world.scans[i])->Ok_0.contains(r)
        },
        !(exists|i: int, r: RefView|
            0 <= i < world.scans.len() && #[trigger] world.scans[i]->Ok_0.contains(r))
            ==> input.after(world, n).action() == (CatalogActionView::CreateTemp {
            dir: input.temp_dir,
            prefix: "catalog.lock."@,
        }),
{
    let last = (n - 1) as nat;
    input.reaches(world, n);
    input.reaches(world, last);
    scan_is_union(world.scans);
    let found = scanned(world.scans)->Ok_0;
    if last > 0 {
        every_expression_is_scanned_in_its_turn(input, world, last);
    }
    if exists|i: int, r: RefView|
        0 <= i < world.scans.len() && #[trigger] world.scans[i]->Ok_0.contains(r) {
        let (i, r) = choose|i: int, r: RefView|
            0 <= i < world.scans.len() && #[trigger] world.scans[i]->Ok_0.contains(r);
        assert(found.contains(r));
        assert(!Set::<RefView>::empty().contains(r));
    } else {
        assert forall|r: RefView| !found.contains(r) by {
            if found.contains(r) {
                let i = choose|i: int|
                    0 <= i < world.scans.len() && (#[trigger] world.scans[i])->Ok_0.contains(r);
                assert(world.scans[i]->Ok_0.contains(r));
            }
        }
        assert(found =~= Set::<RefView>::empty());
    }
}

/// What the catalog replies to its one request decides: a lock gets a temporary file, and each
/// kind of error ends the run as that kind.
pub proof fn reply_of_the_catalog_decides(input: EnsureInput, world: EnsureWorld, n: nat)
    requires
        world.scans.len() == input.files.len(),
        input.after(world, n).action() is Lock,
    ensures
        match world.locked {
            Ok(_) => input.after(world, n + 1).action() == (CatalogActionView::CreateTemp {
                dir: input.temp_dir,
                prefix: "catalog.lock."@,
            }),
            Err(LockError::Unresolvable { rendered, .. }) => input.after(world, n + 1)
                == EnsureView::Ended(Err(CatalogLockError::Unresolvable(rendered))),
            Err(LockError::Other(message)) => input.after(world, n + 1) == EnsureView::Ended(
                Err(CatalogLockError::Lock(LockError::Other(message))),
            ),
        },
{
    input.reaches(world, n);
    assert(input.after(world, n + 1) == input.after(world, n).step(
        world.answer(input.after(world, n)),
    ));
}

/// What is written into the temporary file, and consumed from there, is the catalog's own lock,
/// with its version, its direct inputs and its catalogs as they came; where no expression makes
/// a reference, it is a lock of version 1 that pins nothing.
pub proof fn catalogs_lock_is_consumed_as_it_came(
    input: EnsureInput,
    world: EnsureWorld,
    n: nat,
    lock: LockView,
)
    requires
        world.scans.len() == input.files.len(),
        input.after(world, n).action() is CreateTemp,
        (exists|i: int, r: RefView|
            0 <= i < world.scans.len() && #[trigger] world.scans[i]->Ok_0.contains(r))
            ==> world.locked == Ok::<LockView, LockError>(lock),
        !(exists|i: int, r: RefView|
            0 <= i < world.scans.len() && #[trigger] world.scans[i]->Ok_0.contains(r)) ==> {
            &&& lock.version == 1
            &&& lock.direct == Map::<Seq<char>, LockedInputEntry>::empty()
            &&& lock.catalogs == Map::<Seq<char>, String>::empty()
        },
    ensures
        input.after(world, n).action() == (CatalogActionView::CreateTemp {
            dir: input.temp_dir,
            prefix: "catalog.lock."@,
        }),
        match world.created {
            Err(error) => input.after(world, n + 1) == EnsureView::Ended(
                Err(CatalogLockError::CreateTempFile(error)),
            ),
            Ok(file) => {
                &&& input.after(world, n + 1).action() == (CatalogActionView::Write {
                    lock,
                    path: file.path,
                })
                &&& input.after(world, n + 2) == EnsureView::Ended(
                    match world.written {
                        Ok(()) => Ok(
                            BuildLockView { path: file.path, lock, ephemeral: Some(file.guard) },
                        ),
                        Err(error) => Err(CatalogLockError::Lockfile(error)),
                    },
                )
            },
        },
{
    input.reaches(world, n);
    scan_is_union(world.scans);
    let found = scanned(world.scans)->Ok_0;
    if exists|i: int, r: RefView|
        0 <= i < world.scans.len() && #[trigger] world.scans[i]->Ok_0.contains(r) {
        let (i, r) = choose|i: int, r: RefView|
            0 <= i < world.scans.len() && #[trigger] world.scans[i]->Ok_0.contains(r);
        assert(found.contains(r));
        assert(!Set::<RefView>::empty().contains(r));
    } else {
        assert forall|r: RefView| !found.contains(r) by {
            if found.contains(r) {
                let i = choose|i: int|
                    0 <= i < world.scans.len() && (#[trigger] world.scans[i])->Ok_0.contains(r);
                assert(world.scans[i]->Ok_0.contains(r));
            }
        }
        assert(found =~= Set::<RefView>::empty());
    }
    let writing = input.after(world, n + 1);
    assert(writing == input.after(world, n).step(world.answer(input.after(world, n))));
    assert(input.after(world, n + 2) == writing.step(world.answer(writing)));
}

/// What a run that has ended stands for is what it ended with.
pub proof fn ended_ensure_stands_for_its_end(ended: Result<BuildCatalogLock, CatalogLockError>)
    ensures
        match ended {
            Ok(built) => EnsureRun::Ended(ended)@ == EnsureView::Ended(Ok(built@)),
            Err(error) => EnsureRun::Ended(ended)@ == EnsureView::Ended(Err(error)),
        },
        EnsureRun::Ended(ended)@.action() == CatalogActionView::Nothing,
{
}

} // verus!

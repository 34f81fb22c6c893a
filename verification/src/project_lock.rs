//! The creation of the committed catalog lock.

use vstd::prelude::*;

use crate::build_lock::{BuildLock, LockView};
use crate::catalog_lock::{
    lockfile_path,
    request_outcome,
    resolution,
    resolve_lock,
    resolve_reply,
    BuildLockView,
    CatalogAction,
    CatalogActionView,
    CatalogEvent,
    CatalogEventView,
};
use crate::error::{CatalogLockError, LockError, LockfileError, ScanError};
use crate::references::{RefSet, RefView};
use crate::ensure::{EnsureInput, EnsureWorld};
use crate::scan::{
    scan_failed_at,
    scan_is_union,
    scan_references,
    scanned,
    ScanReply,
    ScanRun,
    ScanView,
};

verus! {

/// The creation of the project catalog lock, as far as it has come.
#[derive(Debug)]
pub enum ProjectLockRun {
    /// The expressions are being scanned.
    Scanning { scan: ScanRun, lockfile: Vec<u8> },
    /// The references found are to be locked.
    Locking { references: RefSet, lockfile: Vec<u8> },
    /// The lock is to be written.
    Writing { references: RefSet, lock: BuildLock, lockfile: Vec<u8> },
    /// The lock is written, or there will be none. The references are those locked.
    Ended(Result<RefSet, CatalogLockError>),
}

/// What a [ProjectLockRun] stands for.
#[verifier::ext_equal]
pub enum ProjectLockView {
    Scanning { scan: ScanView, lockfile: Seq<u8> },
    Locking { references: Set<RefView>, lockfile: Seq<u8> },
    Writing { references: Set<RefView>, lock: LockView, lockfile: Seq<u8> },
    Ended(Result<Set<RefView>, CatalogLockError>),
}

impl View for ProjectLockRun {
    type V = ProjectLockView;

    open spec fn view(&self) -> ProjectLockView {
        match *self {
            ProjectLockRun::Scanning { scan, lockfile } => ProjectLockView::Scanning {
                scan: scan@,
                lockfile: lockfile@,
            },
            ProjectLockRun::Locking { references, lockfile } => ProjectLockView::Locking {
                references: references@,
                lockfile: lockfile@,
            },
            ProjectLockRun::Writing { references, lock, lockfile } => ProjectLockView::Writing {
                references: references@,
                lock: lock@,
                lockfile: lockfile@,
            },
            ProjectLockRun::Ended(Ok(references)) => ProjectLockView::Ended(Ok(references@)),
            ProjectLockRun::Ended(Err(error)) => ProjectLockView::Ended(Err(error)),
        }
    }
}

impl ProjectLockView {
    /// The run with the scan at `scan`: with every file scanned, the references are locked,
    /// where there are any.
    pub open spec fn scanning(scan: ScanView, lockfile: Seq<u8>) -> ProjectLockView {
        if !scan.complete() {
            ProjectLockView::Scanning { scan, lockfile }
        } else if scan.references == Set::<RefView>::empty() {
            ProjectLockView::Writing {
                references: scan.references,
                lock: LockView::empty(),
                lockfile,
            }
        } else {
            ProjectLockView::Locking { references: scan.references, lockfile }
        }
    }

    /// What has to be done for the run to go on.
    pub open spec fn action(self) -> CatalogActionView {
        match self {
            ProjectLockView::Scanning { scan, .. } => if scan.complete() {
                CatalogActionView::Nothing
            } else {
                CatalogActionView::Scan { dir: scan.dir, file: scan.files[scan.done as int] }
            },
            ProjectLockView::Locking { references, .. } => CatalogActionView::Lock { references },
            ProjectLockView::Writing { lock, lockfile, .. } => CatalogActionView::Write {
                lock,
                path: lockfile,
            },
            ProjectLockView::Ended(_) => CatalogActionView::Nothing,
        }
    }

    /// The run after `event`. An event that does not answer the run's action changes nothing.
    pub open spec fn step(self, event: CatalogEventView) -> ProjectLockView {
        match (self, event) {
            (ProjectLockView::Scanning { scan, lockfile }, CatalogEventView::Scanned(reply)) => {
                if scan.complete() {
                    self
                } else {
                    match reply {
                        Ok(found) => ProjectLockView::scanning(scan.found(found), lockfile),
                        Err(error) => ProjectLockView::Ended(Err(CatalogLockError::Scan(error))),
                    }
                }
            },
            (
                ProjectLockView::Locking { references, lockfile },
                CatalogEventView::Locked(reply),
            ) => match request_outcome(reply) {
                Ok(lock) => ProjectLockView::Writing { references, lock, lockfile },
                Err(error) => ProjectLockView::Ended(Err(error)),
            },
            (ProjectLockView::Writing { references, .. }, CatalogEventView::Written(reply)) => {
                match reply {
                    Ok(()) => ProjectLockView::Ended(Ok(references)),
                    Err(error) => ProjectLockView::Ended(Err(CatalogLockError::Lockfile(error))),
                }
            },
            _ => self,
        }
    }
}

/// Creates (or re-creates) the project catalog lock at `lockfile_path`.
///
/// The run scans every expression named by `rel_file_paths` (relative to `expressions_dir`)
/// and locks the union of their catalog references in a single request, so the resulting
/// lock is internally consistent by construction. It ends with the scanned references.
pub fn lock_project_catalog(
    expressions_dir: Vec<u8>,
    rel_file_paths: Vec<Vec<u8>>,
    lockfile_path: Vec<u8>,
) -> (run: ProjectLockRun)
    ensures
        run@ == ProjectLockView::scanning(
            ScanView::start(expressions_dir@, rel_file_paths.deep_view()),
            lockfile_path@,
        ),
{
    ProjectLockRun::scanning(scan_references(expressions_dir, rel_file_paths), lockfile_path)
}

impl ProjectLockRun {
    fn scanning(scan: ScanRun, lockfile: Vec<u8>) -> (run: ProjectLockRun)
        ensures
            run@ == ProjectLockView::scanning(scan@, lockfile@),
    {
        if scan.next_file().is_some() {
            return ProjectLockRun::Scanning { scan, lockfile };
        }
        let references = scan.into_references();
        match resolve_lock(&references) {
            Some(lock) => ProjectLockRun::Writing { references, lock, lockfile },
            None => ProjectLockRun::Locking { references, lockfile },
        }
    }

    /// What has to be done for the run to go on.
    pub fn action(&self) -> (action: CatalogAction<'_>)
        ensures
            action@ == self@.action(),
    {
        match self {
            ProjectLockRun::Scanning { scan, .. } => match scan.next_file() {
                Some(file) => CatalogAction::Scan { dir: scan.dir(), file },
                None => CatalogAction::Nothing,
            },
            ProjectLockRun::Locking { references, .. } => CatalogAction::Lock { references },
            ProjectLockRun::Writing { lock, lockfile, .. } => CatalogAction::Write {
                lock,
                path: lockfile,
            },
            ProjectLockRun::Ended(_) => CatalogAction::Nothing,
        }
    }

    /// The run after `event`. An event that does not answer the run's action changes nothing.
    pub fn step(self, event: CatalogEvent) -> (run: ProjectLockRun)
        ensures
            run@ == self@.step(event@),
    {
        match (self, event) {
            (ProjectLockRun::Scanning { scan, lockfile }, CatalogEvent::Scanned(reply)) => {
                if scan.next_file().is_none() {
                    return ProjectLockRun::Scanning { scan, lockfile };
                }
                match reply {
                    Ok(found) => ProjectLockRun::scanning(scan.record(&found), lockfile),
                    Err(error) => ProjectLockRun::Ended(Err(CatalogLockError::Scan(error))),
                }
            },
            (ProjectLockRun::Locking { references, lockfile }, CatalogEvent::Locked(reply)) => {
                match resolve_reply(reply) {
                    Ok(lock) => ProjectLockRun::Writing { references, lock, lockfile },
                    Err(error) => ProjectLockRun::Ended(Err(error)),
                }
            },
            (
                ProjectLockRun::Writing { references, lock: _, lockfile: _ },
                CatalogEvent::Written(reply),
            ) => match reply {
                Ok(()) => ProjectLockRun::Ended(Ok(references)),
                Err(error) => ProjectLockRun::Ended(Err(CatalogLockError::Lockfile(error))),
            },
            (run, _) => run,
        }
    }
}

/// What a run is started with.
pub struct ProjectLockInput {
    pub expressions_dir: Seq<u8>,
    pub files: Seq<Seq<u8>>,
    pub lockfile: Seq<u8>,
}

/// What comes of each action that a run can ask for.
pub struct ProjectLockWorld {
    /// What scanning each of the files gives.
    pub scans: Seq<ScanReply>,
    pub locked: Result<LockView, LockError>,
    pub written: Result<(), LockfileError>,
}

impl ProjectLockWorld {
    /// The event that answers the action of `run`.
    pub open spec fn answer(self, run: ProjectLockView) -> CatalogEventView {
        match run {
            ProjectLockView::Scanning { scan, .. } => CatalogEventView::Scanned(
                self.scans[scan.done as int],
            ),
            ProjectLockView::Locking { .. } => CatalogEventView::Locked(self.locked),
            ProjectLockView::Writing { .. } => CatalogEventView::Written(self.written),
            ProjectLockView::Ended(_) => CatalogEventView::Written(self.written),
        }
    }
}

impl ProjectLockInput {
    /// The run that is started with this, before anything is known.
    pub open spec fn start(self) -> ProjectLockView {
        ProjectLockView::scanning(
            ScanView::start(self.expressions_dir, self.files),
            self.lockfile,
        )
    }

    /// The run after `n` of its actions have been answered.
    pub open spec fn after(self, world: ProjectLockWorld, n: nat) -> ProjectLockView
        decreases n,
    {
        if n == 0 {
            self.start()
        } else {
            let run = self.after(world, (n - 1) as nat);
            run.step(world.answer(run))
        }
    }

    /// What creating the lock comes to: the references of all files, once they are resolved
    /// and the lock is written.
    pub open spec fn locked(self, world: ProjectLockWorld) -> Result<
        Set<RefView>,
        CatalogLockError,
    > {
        match scanned(world.scans) {
            Err(error) => Err(CatalogLockError::Scan(error)),
            Ok(references) => match resolution(references, world.locked) {
                Err(error) => Err(error),
                Ok(_) => match world.written {
                    Err(error) => Err(CatalogLockError::Lockfile(error)),
                    Ok(()) => Ok(references),
                },
            },
        }
    }

    /// Everything that is known of a run after `n` answers.
    spec fn reached(self, world: ProjectLockWorld, n: nat, run: ProjectLockView) -> bool {
        let last = self.files.len();
        match run {
            ProjectLockView::Scanning { scan, lockfile } => {
                &&& n == scan.done
                &&& !scan.complete()
                &&& scan.dir == self.expressions_dir
                &&& scan.files == self.files
                &&& scanned(world.scans.take(scan.done as int)) == Ok::<_, ScanError>(
                    scan.references,
                )
                &&& lockfile == self.lockfile
            },
            ProjectLockView::Locking { references, lockfile } => {
                &&& n == last
                &&& references != Set::<RefView>::empty()
                &&& scanned(world.scans) == Ok::<_, ScanError>(references)
                &&& lockfile == self.lockfile
            },
            ProjectLockView::Writing { references, lock, lockfile } => {
                &&& last <= n <= last + 1
                &&& scanned(world.scans) == Ok::<_, ScanError>(references)
                &&& resolution(references, world.locked) == Ok::<_, CatalogLockError>(lock)
                &&& lockfile == self.lockfile
            },
            ProjectLockView::Ended(outcome) => outcome == self.locked(world),
        }
    }

    proof fn reaches(self, world: ProjectLockWorld, n: nat)
        requires
            world.scans.len() == self.files.len(),
        ensures
            self.reached(world, n, self.after(world, n)),
        decreases n,
    {
        if n == 0 {
            assert(world.scans.take(0) =~= Seq::empty());
            assert(self.files.len() == 0 ==> world.scans =~= Seq::empty());
        } else {
            let before = (n - 1) as nat;
            self.reaches(world, before);
            let run = self.after(world, before);
            if let ProjectLockView::Scanning { scan, .. } = run {
                let seen = world.scans.take(scan.done as int);
                let more = world.scans.take(scan.done as int + 1);
                assert(more.drop_last() =~= seen);
                assert(more.last() == world.scans[scan.done as int]);
                if scan.done + 1 == self.files.len() {
                    assert(more =~= world.scans);
                }
                if world.scans[scan.done as int] is Err {
                    scan_failed_at(world.scans, scan.done as int);
                }
            }
        }
    }
}

/// However a run is answered, it ends with the references of all expressions or with what
/// kept the lock from being made, after at most two answers more than there are files.
pub proof fn project_lock_ends(input: ProjectLockInput, world: ProjectLockWorld, n: nat)
    requires
        world.scans.len() == input.files.len(),
        n >= input.files.len() + 2,
    ensures
        input.after(world, n) == ProjectLockView::Ended(input.locked(world)),
{
    input.reaches(world, n);
}

/// A run asks for nothing only when it has ended.
pub proof fn project_lock_goes_on(input: ProjectLockInput, world: ProjectLockWorld, n: nat)
    requires
        world.scans.len() == input.files.len(),
    ensures
        input.after(world, n).action() is Nothing <==> input.after(world, n) is Ended,
{
    input.reaches(world, n);
}

/// An event moves a run exactly when it answers the run's action.
pub proof fn project_lock_moves_by_answers(run: ProjectLockView, event: CatalogEventView)
    ensures
        run.step(event) != run <==> event.answers(run.action()),
{
}

/// The references of all expressions are locked in a single request, which is made only where
/// there are any.
pub proof fn project_references_take_one_request(
    input: ProjectLockInput,
    world: ProjectLockWorld,
    n: nat,
)
    requires
        world.scans.len() == input.files.len(),
    ensures
        input.after(world, n).action() matches CatalogActionView::Lock { references } ==> {
            &&& n == input.files.len()
            &&& references != Set::<RefView>::empty()
            &&& scanned(world.scans) == Ok::<_, ScanError>(references)
        },
{
    input.reaches(world, n);
}

/// What is written is the resolution of the references, to the lock's own path; without any
/// references that is the empty lock.
pub proof fn project_lock_is_written(input: ProjectLockInput, world: ProjectLockWorld, n: nat)
    requires
        world.scans.len() == input.files.len(),
    ensures
        input.after(world, n).action() matches CatalogActionView::Write { lock, path } ==> {
            &&& path == input.lockfile
            &&& scanned(world.scans) matches Ok(references)
            &&& resolution(references, world.locked) == Ok::<_, CatalogLockError>(lock)
            &&& references == Set::<RefView>::empty() ==> lock == LockView::empty()
        },
{
    input.reaches(world, n);
}

/// A catalog that locks what it is asked to gives a project lock that covers every package:
/// whatever references one of the expressions makes, the lock has entries for them.
pub proof fn project_lock_covers_every_expression(
    input: ProjectLockInput,
    world: ProjectLockWorld,
    n: nat,
    i: int,
)
    requires
        world.scans.len() == input.files.len(),
        0 <= i < world.scans.len(),
        input.after(world, n).action() is Write,
        scanned(world.scans) matches Ok(references) && (world.locked matches Ok(lock)
            ==> lock.covers_all(references)),
    ensures
        input.after(world, n).action() matches CatalogActionView::Write { lock, .. }
            && world.scans[i] matches Ok(found) && lock.covers_all(found),
{
    input.reaches(world, n);
    scan_is_union(world.scans);
    assert(world.scans[i] is Ok);
    let references = scanned(world.scans)->Ok_0;
    assert(forall|r: RefView| #[trigger]
        world.scans[i]->Ok_0.contains(r) ==> references.contains(r));
}

/// The lock that is created is the one that builds consume: a build that reads back what was
/// written in place of the committed lock ends with that lock, and makes no other.
pub proof fn created_lock_is_what_builds_consume(
    input: ProjectLockInput,
    world: ProjectLockWorld,
    n: nat,
    build: EnsureInput,
    build_world: EnsureWorld,
)
    requires
        world.scans.len() == input.files.len(),
        input.lockfile == lockfile_path(build.dot_flox),
        build_world.committed,
        input.after(world, n).action() matches CatalogActionView::Write { lock, .. }
            && build_world.read == Ok::<_, LockfileError>(lock),
    ensures
        input.after(world, n).action() matches CatalogActionView::Write { lock, path }
            && build.ensured(build_world) == Ok::<_, CatalogLockError>(
            BuildLockView { path, lock, ephemeral: None },
        ),
{
    input.reaches(world, n);
}

/// Locking a project is what its builds need. Where the catalog locks what it is asked to, and
/// a build reads back what was written, the build consumes the project's lock, and no reference
/// that locking returned is uncovered in it, nor any that one of the expressions makes.
pub proof fn locked_project_is_covered_in_builds(
    input: ProjectLockInput,
    world: ProjectLockWorld,
    references: Set<RefView>,
    build: EnsureInput,
    build_world: EnsureWorld,
)
    requires
        input.lockfile == lockfile_path(build.dot_flox),
        input.locked(world) == Ok::<_, CatalogLockError>(references),
        world.locked matches Ok(lock) ==> lock.covers_all(references),
        build_world.committed,
        resolution(references, world.locked) matches Ok(lock) && build_world.read == Ok::<
            _,
            LockfileError,
        >(lock),
    ensures
        build.ensured(build_world) matches Ok(made) && {
            &&& made.path == input.lockfile
            &&& made.ephemeral is None
            &&& made.lock.covers_all(references)
            &&& made.lock.uncovered(references) == Set::<RefView>::empty()
            &&& forall|i: int|
                0 <= i < world.scans.len() ==> ((#[trigger] world.scans[i]) matches Ok(found)
                    && made.lock.covers_all(found))
        },
{
    scan_is_union(world.scans);
    let lock = build.ensured(build_world)->Ok_0.lock;
    assert(lock.uncovered(references) =~= Set::<RefView>::empty());
    assert forall|i: int| 0 <= i < world.scans.len() implies ((
    #[trigger] world.scans[i]) matches Ok(found) && lock.covers_all(found)) by {
        assert(world.scans[i] is Ok);
        assert(forall|r: RefView| #[trigger]
            world.scans[i]->Ok_0.contains(r) ==> references.contains(r));
    }
}

/// A run is driven by what comes of its actions: it starts from what it was asked for, and each
/// step is that of the event which tells what came of the action before it.
pub proof fn project_lock_run_is_driven_by_its_world(
    input: ProjectLockInput,
    world: ProjectLockWorld,
    n: nat,
)
    requires
        world.scans.len() == input.files.len(),
    ensures
        input.after(world, 0) == ProjectLockView::scanning(
            ScanView::start(input.expressions_dir, input.files),
            input.lockfile,
        ),
        ({
            let run = input.after(world, n);
            let event = world.answer(run);
            &&& input.after(world, n + 1) == run.step(event)
            &&& match run.action() {
                CatalogActionView::Scan { .. } => event == CatalogEventView::Scanned(
                    world.scans[n as int],
                ),
                CatalogActionView::Lock { .. } => event == CatalogEventView::Locked(world.locked),
                CatalogActionView::Write { .. } => event == CatalogEventView::Written(
                    world.written,
                ),
                CatalogActionView::Nothing => run is Ended && input.after(world, n + 1) == run,
                _ => false,
            }
        }),
{
    input.reaches(world, n);
}

/// Every expression of the project is scanned, once and in its turn, relative to the directory
/// of the expressions, as long as no scan fails; and nothing else is ever scanned.
pub proof fn every_project_expression_is_scanned_in_its_turn(
    input: ProjectLockInput,
    world: ProjectLockWorld,
    n: nat,
)
    requires
        world.scans.len() == input.files.len(),
    ensures
        input.after(world, n).action() matches CatalogActionView::Scan { dir, file } ==> {
            &&& n < input.files.len()
            &&& dir == input.expressions_dir
            &&& file == input.files[n as int]
            &&& forall|i: int| 0 <= i < n ==> #[trigger] world.scans[i] is Ok
        },
        n < input.files.len() && (forall|i: int| 0 <= i < n ==> #[trigger] world.scans[i] is Ok)
            ==> input.after(world, n).action() == (CatalogActionView::Scan {
            dir: input.expressions_dir,
            file: input.files[n as int],
        }),
    decreases n,
{
    input.reaches(world, n);
    if let ProjectLockView::Scanning { scan, .. } = input.after(world, n) {
        let seen = world.scans.take(scan.done as int);
        scan_is_union(seen);
        assert forall|i: int| 0 <= i < n implies #[trigger] world.scans[i] is Ok by {
            assert(seen[i] is Ok);
        }
    }
    if n > 0 {
        let before = (n - 1) as nat;
        every_project_expression_is_scanned_in_its_turn(input, world, before);
        input.reaches(world, before);
        if n < input.files.len() && (forall|i: int|
            0 <= i < n ==> #[trigger] world.scans[i] is Ok) {
            assert(world.scans[n - 1] is Ok);
            assert(input.after(world, before).action() is Scan);
        }
    }
}

/// The first expression that cannot be scanned ends the run with that very error.
pub proof fn first_failing_project_scan_is_the_end(
    input: ProjectLockInput,
    world: ProjectLockWorld,
    i: int,
)
    requires
        world.scans.len() == input.files.len(),
        0 <= i < world.scans.len(),
        world.scans[i] is Err,
        forall|j: int| 0 <= j < i ==> #[trigger] world.scans[j] is Ok,
    ensures
        input.after(world, (i + 1) as nat) == ProjectLockView::Ended(
            Err(CatalogLockError::Scan(world.scans[i]->Err_0)),
        ),
{
    let n = i as nat;
    every_project_expression_is_scanned_in_its_turn(input, world, n);
    input.reaches(world, n);
    assert(input.after(world, n + 1) == input.after(world, n).step(
        world.answer(input.after(world, n)),
    ));
}

/// With every expression scanned, the catalog is asked for exactly the references that some
/// expression makes, and where some does, what it replies decides: its own lock is written, as
/// it came, to the lock file, or the error ends the run as that kind of error. Where none does,
/// it is not asked, and what is written is a lock of version 1 that pins nothing.
pub proof fn project_lock_is_the_catalogs_own(
    input: ProjectLockInput,
    world: ProjectLockWorld,
    n: nat,
)
    requires
        world.scans.len() == input.files.len(),
        forall|i: int| 0 <= i < world.scans.len() ==> #[trigger] world.scans[i] is Ok,
        n == input.files.len(),
    ensures
        (exists|i: int, r: RefView|
            0 <= i < world.scans.len() && #[trigger] world.scans[i]->Ok_0.contains(r)) ==> {
            &&& input.after(world, n).action() matches CatalogActionView::Lock { references }
            &&& forall|r: RefView| #[trigger]
                references.contains(r) <==> exists|i: int|
                    0 <= i < world.scans.len() && (#[trigger] world.scans[i])->Ok_0.contains(r)
            &&& match world.locked {
                Ok(lock) => input.after(world, n + 1).action() == (CatalogActionView::Write {
                    lock,
                    path: input.lockfile,
                }),
                Err(LockError::Unresolvable { rendered, .. }) => input.after(world, n + 1)
                    == ProjectLockView::Ended(Err(CatalogLockError::Unresolvable(rendered))),
                Err(LockError::Other(message)) => input.after(world, n + 1)
                    == ProjectLockView::Ended(
                    Err(CatalogLockError::Lock(LockError::Other(message))),
                ),
            }
        },
        !(exists|i: int, r: RefView|
            0 <= i < world.scans.len() && #[trigger] world.scans[i]->Ok_0.contains(r))
            ==> input.after(world, n).action() == (CatalogActionView::Write {
            lock: LockView { version: 1, direct: Map::empty(), catalogs: Map::empty() },
            path: input.lockfile,
        }),
{
    input.reaches(world, n);
    scan_is_union(world.scans);
    let found = scanned(world.scans)->Ok_0;
    if n > 0 {
        let before = (n - 1) as nat;
        input.reaches(world, before);
        every_project_expression_is_scanned_in_its_turn(input, world, before);
    }
    if exists|i: int, r: RefView|
        0 <= i < world.scans.len() && #[trigger] world.scans[i]->Ok_0.contains(r) {
        let (i, r) = choose|i: int, r: RefView|
            0 <= i < world.scans.len() && #[trigger] world.scans[i]->Ok_0.contains(r);
        assert(found.contains(r));
        assert(!Set::<RefView>::empty().contains(r));
        assert(input.after(world, n + 1) == input.after(world, n).step(
            world.answer(input.after(world, n)),
        ));
    } else {
        assert forall|r: RefView| !found.contains(r) by {
            if found.contains(r) {
                let i = choose|i: int|
                    0 <= i < world.scans.len() && (#[trigger] world.scans[i])->Ok_0.contains(r);
                assert(world.scans[i]->Ok_0.contains(r));
            }
        }
        assert(found =~= Set::<RefView>::empty());
    }
}

/// Once the lock is written, locking ends with exactly the references that some expression
/// makes; where it cannot be written, with that very error.
pub proof fn locking_ends_with_the_references_of_all_expressions(
    input: ProjectLockInput,
    world: ProjectLockWorld,
    n: nat,
)
    requires
        world.scans.len() == input.files.len(),
        input.after(world, n).action() is Write,
    ensures
        input.after(world, n).action()->Write_path == input.lockfile,
        match world.written {
            Ok(()) => {
                &&& input.after(world, n + 1) matches ProjectLockView::Ended(Ok(references))
                &&& forall|r: RefView| #[trigger]
                    references.contains(r) <==> exists|i: int|
                        0 <= i < world.scans.len() && (#[trigger] world.scans[i])->Ok_0.contains(r)
            },
            Err(error) => input.after(world, n + 1) == ProjectLockView::Ended(
                Err(CatalogLockError::Lockfile(error)),
            ),
        },
{
    input.reaches(world, n);
    scan_is_union(world.scans);
    assert(input.after(world, n + 1) == input.after(world, n).step(
        world.answer(input.after(world, n)),
    ));
}

/// What a run that has ended stands for is what it ended with.
pub proof fn ended_project_lock_stands_for_its_end(ended: Result<RefSet, CatalogLockError>)
    ensures
        match ended {
            Ok(references) => ProjectLockRun::Ended(ended)@ == ProjectLockView::Ended(
                Ok(references@),
            ),
            Err(error) => ProjectLockRun::Ended(ended)@ == ProjectLockView::Ended(Err(error)),
        },
        ProjectLockRun::Ended(ended)@.action() == CatalogActionView::Nothing,
{
}

} // verus!

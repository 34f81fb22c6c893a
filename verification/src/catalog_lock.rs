//! The project-level catalog lock.
//!
//! A project has exactly one catalog lock, `.flox/catalog.lock`, which pins the source of
//! every `catalogs.*` reference that the project's Nix expressions make. It is created
//! explicitly and consumed by builds exactly as found. A project without one builds with a
//! lock that is resolved afresh into a temporary file and lives only as long as the build.
//!
//! What touches files or the network happens outside this crate: a run (see
//! [EnsureRun](crate::ensure::EnsureRun) and [ProjectLockRun](crate::project_lock::ProjectLockRun))
//! says by a [CatalogAction] what is to be done next, and takes what came of it as a
//! [CatalogEvent]. Paths are the bytes of a Unix path.

use vstd::prelude::*;
use vstd::string::*;

use crate::build_lock::{BuildLock, LockView, LockedInputEntry, StaleLockError};
use crate::error::{CatalogLockError, LockError, LockfileError, ScanError};
use crate::references::{refs_ascending, RefSet, RefView};
use crate::text_map::TextMap;

verus! {

/// File name of the project catalog lock, relative to the `.flox` directory.
pub const CATALOG_LOCKFILE_NAME: &'static str = "catalog.lock";

/// How the names of the temporary files that hold ephemeral locks begin.
pub const EPHEMERAL_LOCK_PREFIX: &'static str = "catalog.lock.";

/// The byte that separates the components of a path.
pub const SEPARATOR: u8 = 0x2f;

/// The path of the file called `name` in the directory at `dir`.
pub open spec fn path_in(dir: Seq<u8>, name: Seq<u8>) -> Seq<u8> {
    if dir.len() == 0 || dir.last() == SEPARATOR {
        dir + name
    } else {
        dir + seq![SEPARATOR] + name
    }
}

/// The location of the project catalog lock within the directory at `dot_flox`.
pub open spec fn lockfile_path(dot_flox: Seq<u8>) -> Seq<u8> {
    path_in(dot_flox, CATALOG_LOCKFILE_NAME.spec_bytes())
}

/// The location of the project catalog lock within `dot_flox_path`.
pub fn catalog_lockfile_path(dot_flox_path: &[u8]) -> (path: Vec<u8>)
    ensures
        path@ == lockfile_path(dot_flox_path@),
{
    let mut path: Vec<u8> = Vec::new();
    path.extend_from_slice(dot_flox_path);
    if path.len() > 0 && path[path.len() - 1] != SEPARATOR {
        path.push(SEPARATOR);
    }
    path.extend_from_slice(CATALOG_LOCKFILE_NAME.as_bytes());
    assert(path@ =~= lockfile_path(dot_flox_path@));
    path
}

/// The lock of a project is the file `catalog.lock` in its `.flox` directory.
pub proof fn lockfile_is_catalog_lock(dot_flox: Seq<u8>)
    ensures
        lockfile_path(dot_flox) == path_in(
            dot_flox,
            seq![
                0x63u8,
                0x61u8,
                0x74u8,
                0x61u8,
                0x6cu8,
                0x6fu8,
                0x67u8,
                0x2eu8,
                0x6cu8,
                0x6fu8,
                0x63u8,
                0x6bu8,
            ],
        ),
{
    reveal_strlit("catalog.lock");
    is_ascii_spec_bytes(CATALOG_LOCKFILE_NAME);
    assert(CATALOG_LOCKFILE_NAME.spec_bytes() =~= seq![
        0x63u8,
        0x61u8,
        0x74u8,
        0x61u8,
        0x6cu8,
        0x6fu8,
        0x67u8,
        0x2eu8,
        0x6cu8,
        0x6fu8,
        0x63u8,
        0x6bu8,
    ]);
}

/// Whether `path` is that of a file made for an ephemeral lock: its name, in whatever
/// directory, begins with [EPHEMERAL_LOCK_PREFIX].
pub open spec fn is_ephemeral_path(path: Seq<u8>) -> bool {
    exists|dir: Seq<u8>, name: Seq<u8>|
        {
            &&& path == #[trigger] path_in(dir, name)
            &&& EPHEMERAL_LOCK_PREFIX.spec_bytes().is_prefix_of(name)
            &&& !name.contains(SEPARATOR)
        }
}

/// The file of an ephemeral lock is never the project's own lock file.
pub proof fn ephemeral_path_is_no_lockfile(path: Seq<u8>, dot_flox: Seq<u8>)
    requires
        is_ephemeral_path(path),
    ensures
        path != lockfile_path(dot_flox),
{
    lockfile_is_catalog_lock(dot_flox);
    reveal_strlit("catalog.lock.");
    is_ascii_spec_bytes(EPHEMERAL_LOCK_PREFIX);
    let (dir, name) = choose|dir: Seq<u8>, name: Seq<u8>|
        {
            &&& path == #[trigger] path_in(dir, name)
            &&& EPHEMERAL_LOCK_PREFIX.spec_bytes().is_prefix_of(name)
            &&& !name.contains(SEPARATOR)
        };
    assert(EPHEMERAL_LOCK_PREFIX.spec_bytes().len() == 13);
    assert(name.len() >= 13);
    if path == lockfile_path(dot_flox) {
        // The byte in front of the name `catalog.lock` stands inside the longer name.
        let at = path.len() - 13;
        assert(path[at] == name[name.len() - 13]);
        assert(path[at] == SEPARATOR);
    }
}

/// What a lock or an error stands for.
pub open spec fn lock_reply<E>(reply: Result<BuildLock, E>) -> Result<LockView, E> {
    match reply {
        Ok(lock) => Ok(lock@),
        Err(error) => Err(error),
    }
}

/// What references or an error stand for.
pub open spec fn scan_reply(reply: Result<RefSet, ScanError>) -> Result<Set<RefView>, ScanError> {
    match reply {
        Ok(references) => Ok(references@),
        Err(error) => Err(error),
    }
}

/// What the catalog's reply to a request to lock references comes to.
pub open spec fn request_outcome(reply: Result<LockView, LockError>) -> Result<
    LockView,
    CatalogLockError,
> {
    match reply {
        Ok(lock) => Ok(lock),
        Err(LockError::Unresolvable { rendered, .. }) => Err(
            CatalogLockError::Unresolvable(rendered),
        ),
        Err(error) => Err(CatalogLockError::Lock(error)),
    }
}

/// What resolving `references` comes to, where the catalog would reply `reply` to a request.
pub open spec fn resolution(
    references: Set<RefView>,
    reply: Result<LockView, LockError>,
) -> Result<LockView, CatalogLockError> {
    if references == Set::<RefView>::empty() {
        Ok(LockView::empty())
    } else {
        request_outcome(reply)
    }
}

/// The lock that resolves `references` without any request to the catalog: the empty lock
/// when there are none, which is the common case. Any reference takes a request.
pub fn resolve_lock(references: &RefSet) -> (lock: Option<BuildLock>)
    ensures
        match lock {
            Some(lock) => references@ == Set::<RefView>::empty() && lock@ == LockView::empty(),
            None => references@ != Set::<RefView>::empty(),
        },
{
    if references.is_empty() {
        Some(BuildLock::default())
    } else {
        None
    }
}

/// What the catalog's reply to a request to lock references comes to.
pub fn resolve_reply(reply: Result<BuildLock, LockError>) -> (lock: Result<
    BuildLock,
    CatalogLockError,
>)
    ensures
        lock_reply(lock) == request_outcome(lock_reply(reply)),
        match reply {
            Ok(answered) => lock == Ok::<BuildLock, CatalogLockError>(answered),
            Err(LockError::Unresolvable { rendered, .. }) => lock == Err::<
                BuildLock,
                CatalogLockError,
            >(CatalogLockError::Unresolvable(rendered)),
            Err(LockError::Other(message)) => lock == Err::<BuildLock, CatalogLockError>(
                CatalogLockError::Lock(LockError::Other(message)),
            ),
        },
{
    match reply {
        Ok(lock) => Ok(lock),
        Err(LockError::Unresolvable { summary: _, rendered }) => Err(
            CatalogLockError::Unresolvable(rendered),
        ),
        Err(LockError::Other(message)) => Err(CatalogLockError::Lock(LockError::Other(message))),
    }
}

/// The catalog references that one package's expression makes, from what scanning the
/// expression gave. Publish scans locally, with no build and no request, to learn which lock
/// entries are relevant to the package.
pub fn package_references(scan: Result<RefSet, ScanError>) -> (references: Result<
    RefSet,
    CatalogLockError,
>)
    ensures
        match scan {
            Ok(found) => references == Ok::<RefSet, CatalogLockError>(found),
            Err(error) => references == Err::<RefSet, CatalogLockError>(
                CatalogLockError::Scan(error),
            ),
        },
{
    match scan {
        Ok(found) => Ok(found),
        Err(error) => Err(CatalogLockError::Scan(error)),
    }
}

/// A temporary file that was just created.
#[derive(Debug)]
pub struct TempFile {
    pub path: Vec<u8>,
    /// Removes the file when dropped.
    pub guard: tempfile::TempPath,
}

/// What a [TempFile] stands for.
pub struct TempView {
    pub path: Seq<u8>,
    pub guard: tempfile::TempPath,
}

impl View for TempFile {
    type V = TempView;

    open spec fn view(&self) -> TempView {
        TempView { path: self.path@, guard: self.guard }
    }
}

/// The lock a build consumes, made before the package builder is invoked and handed to it as
/// `CATALOG_LOCKFILE`.
#[derive(Debug)]
pub struct BuildCatalogLock {
    path: Vec<u8>,
    lock: BuildLock,
    /// Keeps an ephemeral lock's temp file alive for as long as this value; `None` when the
    /// lock is the committed file.
    _ephemeral: Option<tempfile::TempPath>,
}

/// What a [BuildCatalogLock] stands for.
pub struct BuildLockView {
    /// Where the lock's file is.
    pub path: Seq<u8>,
    pub lock: LockView,
    /// The handle of the temporary file, if the lock is in one.
    pub ephemeral: Option<tempfile::TempPath>,
}

impl View for BuildCatalogLock {
    type V = BuildLockView;

    closed spec fn view(&self) -> BuildLockView {
        BuildLockView { path: self.path@, lock: self.lock@, ephemeral: self._ephemeral }
    }
}

/// A [BuildCatalogLock] of the lock `lock` in the file at `path`. It is the committed lock,
/// unless the file is a temporary one, which `ephemeral` then keeps alive.
pub fn build_catalog_lock_from_parts(
    path: Vec<u8>,
    lock: BuildLock,
    ephemeral: Option<tempfile::TempPath>,
) -> (built: BuildCatalogLock)
    ensures
        built@ == (BuildLockView { path: path@, lock: lock@, ephemeral }),
{
    BuildCatalogLock { path, lock, _ephemeral: ephemeral }
}

impl BuildCatalogLock {
    /// The path to hand to the package builder as `CATALOG_LOCKFILE`.
    pub fn path(&self) -> (path: &Vec<u8>)
        ensures
            path@ == self@.path,
    {
        &self.path
    }

    /// The direct inputs of this lock that `references` select, which is what a publish
    /// submits with the build. No references select nothing. Fails, naming the uncovered
    /// references, when the lock predates them.
    pub fn subset(&self, references: &RefSet) -> (subset: Result<
        TextMap<LockedInputEntry>,
        StaleLockError,
    >)
        ensures
            subset is Ok <==> self@.lock.covers_all(references@),
            subset is Ok <==> forall|r: RefView| #[trigger]
                references@.contains(r) ==> self@.lock.direct.contains_key(r.key),
            match subset {
                Ok(entries) => entries@ == self@.lock.selected(references@),
                Err(stale) => {
                    &&& refs_ascending(stale.uncovered.deep_view())
                    &&& stale.uncovered.deep_view().to_set() == self@.lock.uncovered(references@)
                },
            },
    {
        if references.is_empty() {
            let none: TextMap<LockedInputEntry> = TextMap::new();
            assert(none@ =~= self@.lock.selected(references@));
            return Ok(none);
        }
        self.lock.subset_direct(references)
    }

    /// Whether this is the committed `.flox/catalog.lock` rather than an ephemeral lock.
    pub fn is_committed(&self) -> (committed: bool)
        ensures
            committed == (self@.ephemeral is None),
    {
        self._ephemeral.is_none()
    }
}

/// Something that has to be done outside for a run to go on.
pub enum CatalogAction<'a> {
    /// Find out whether there is a file at `path`.
    Probe { path: &'a Vec<u8> },
    /// Read the lock in the file at `path`.
    Read { path: &'a Vec<u8> },
    /// Scan the expression at `file`, relative to `dir`, for the references it makes.
    Scan { dir: &'a Vec<u8>, file: &'a Vec<u8> },
    /// Have the catalog lock `references`, in one request.
    Lock { references: &'a RefSet },
    /// Create an empty file in the directory at `dir`, under a random name that begins with
    /// `prefix`.
    CreateTemp { dir: &'a Vec<u8>, prefix: &'static str },
    /// Write `lock` into the file at `path`.
    Write { lock: &'a BuildLock, path: &'a Vec<u8> },
    /// Nothing: the run has ended.
    Nothing,
}

/// What a [CatalogAction] stands for.
pub enum CatalogActionView {
    Probe { path: Seq<u8> },
    Read { path: Seq<u8> },
    Scan { dir: Seq<u8>, file: Seq<u8> },
    Lock { references: Set<RefView> },
    CreateTemp { dir: Seq<u8>, prefix: Seq<char> },
    Write { lock: LockView, path: Seq<u8> },
    Nothing,
}

impl<'a> View for CatalogAction<'a> {
    type V = CatalogActionView;

    open spec fn view(&self) -> CatalogActionView {
        match *self {
            CatalogAction::Probe { path } => CatalogActionView::Probe { path: path@ },
            CatalogAction::Read { path } => CatalogActionView::Read { path: path@ },
            CatalogAction::Scan { dir, file } => CatalogActionView::Scan {
                dir: dir@,
                file: file@,
            },
            CatalogAction::Lock { references } => CatalogActionView::Lock {
                references: references@,
            },
            CatalogAction::CreateTemp { dir, prefix } => CatalogActionView::CreateTemp {
                dir: dir@,
                prefix: prefix@,
            },
            CatalogAction::Write { lock, path } => CatalogActionView::Write {
                lock: lock@,
                path: path@,
            },
            CatalogAction::Nothing => CatalogActionView::Nothing,
        }
    }
}

/// What came of a [CatalogAction].
#[derive(Debug)]
pub enum CatalogEvent {
    Probed(bool),
    Read(Result<BuildLock, LockfileError>),
    Scanned(Result<RefSet, ScanError>),
    Locked(Result<BuildLock, LockError>),
    TempCreated(Result<TempFile, std::io::Error>),
    Written(Result<(), LockfileError>),
}

/// What a [CatalogEvent] stands for.
pub enum CatalogEventView {
    Probed(bool),
    Read(Result<LockView, LockfileError>),
    Scanned(Result<Set<RefView>, ScanError>),
    Locked(Result<LockView, LockError>),
    TempCreated(Result<TempView, std::io::Error>),
    Written(Result<(), LockfileError>),
}

impl View for CatalogEvent {
    type V = CatalogEventView;

    open spec fn view(&self) -> CatalogEventView {
        match *self {
            CatalogEvent::Probed(exists) => CatalogEventView::Probed(exists),
            CatalogEvent::Read(reply) => CatalogEventView::Read(lock_reply(reply)),
            CatalogEvent::Scanned(reply) => CatalogEventView::Scanned(scan_reply(reply)),
            CatalogEvent::Locked(reply) => CatalogEventView::Locked(lock_reply(reply)),
            CatalogEvent::TempCreated(Ok(file)) => CatalogEventView::TempCreated(Ok(file@)),
            CatalogEvent::TempCreated(Err(error)) => CatalogEventView::TempCreated(Err(error)),
            CatalogEvent::Written(reply) => CatalogEventView::Written(reply),
        }
    }
}

impl CatalogEventView {
    /// Whether this is what can come of `action`.
    pub open spec fn answers(self, action: CatalogActionView) -> bool {
        match action {
            CatalogActionView::Probe { .. } => self is Probed,
            CatalogActionView::Read { .. } => self is Read,
            CatalogActionView::Scan { .. } => self is Scanned,
            CatalogActionView::Lock { .. } => self is Locked,
            CatalogActionView::CreateTemp { .. } => self is TempCreated,
            CatalogActionView::Write { .. } => self is Written,
            CatalogActionView::Nothing => false,
        }
    }
}

/// References that cannot be resolved are reported as they were rendered, by every command
/// that locks: never by their number alone.
pub proof fn unresolvable_references_are_reported_as_rendered(
    references: Set<RefView>,
    summary: String,
    rendered: String,
)
    requires
        references != Set::<RefView>::empty(),
    ensures
        ({
            let reply: Result<LockView, LockError> = Err(
                LockError::Unresolvable { summary, rendered },
            );
            &&& resolution(references, reply) matches Err(error)
            &&& error == CatalogLockError::Unresolvable(rendered)
            &&& error.text() == rendered@
        }),
{
}

/// The catalog's reply is taken as it is: its lock whole, with version, direct inputs and
/// catalogs, and each kind of error as that kind. Without references there is no request, and
/// the reply does not matter.
pub proof fn replies_are_taken_as_they_are(
    references: Set<RefView>,
    reply: Result<LockView, LockError>,
    r: RefView,
)
    ensures
        references.contains(r) ==> match reply {
            Ok(lock) => resolution(references, reply) == Ok::<LockView, CatalogLockError>(lock),
            Err(LockError::Unresolvable { rendered, .. }) => resolution(references, reply) == Err::<
                LockView,
                CatalogLockError,
            >(CatalogLockError::Unresolvable(rendered)),
            Err(LockError::Other(message)) => resolution(references, reply) == Err::<
                LockView,
                CatalogLockError,
            >(CatalogLockError::Lock(LockError::Other(message))),
        },
        references.contains(r) ==> request_outcome(reply) == resolution(references, reply),
        resolution(Set::<RefView>::empty(), reply) == Ok::<LockView, CatalogLockError>(
            LockView { version: 1, direct: Map::empty(), catalogs: Map::empty() },
        ),
{
}

/// The path of a file in a directory is the directory's path and the file's name, with one
/// separator between them unless the directory's path is empty or ends in one.
pub proof fn paths_are_joined_by_one_separator(dir: Seq<u8>, name: Seq<u8>)
    ensures
        path_in(Seq::<u8>::empty(), name) == name,
        path_in(dir.push(0x2fu8), name) == dir.push(0x2fu8) + name,
        dir.len() > 0 && dir[dir.len() - 1] != 0x2fu8 ==> path_in(dir, name) == dir.push(0x2fu8)
            + name,
{
    assert(path_in(Seq::<u8>::empty(), name) =~= name);
}

/// What a lock or an error that is handed back stands for is that very lock or error.
pub proof fn replies_stand_for_what_they_carry(
    lock: Result<BuildLock, LockError>,
    read: Result<BuildLock, LockfileError>,
    scan: Result<RefSet, ScanError>,
)
    ensures
        match lock {
            Ok(lock_there) => lock_reply(lock) == Ok::<LockView, LockError>(lock_there@),
            Err(error) => lock_reply(lock) == Err::<LockView, LockError>(error),
        },
        match read {
            Ok(lock_there) => lock_reply(read) == Ok::<LockView, LockfileError>(lock_there@),
            Err(error) => lock_reply(read) == Err::<LockView, LockfileError>(error),
        },
        match scan {
            Ok(found) => scan_reply(scan) == Ok::<Set<RefView>, ScanError>(found@),
            Err(error) => scan_reply(scan) == Err::<Set<RefView>, ScanError>(error),
        },
{
}

/// What an action asks for is what it carries.
pub proof fn catalog_actions_ask_for_what_they_carry(action: CatalogAction<'_>)
    ensures
        match action {
            CatalogAction::Probe { path } => action@ == (CatalogActionView::Probe { path: path@ }),
            CatalogAction::Read { path } => action@ == (CatalogActionView::Read { path: path@ }),
            CatalogAction::Scan { dir, file } => action@ == (CatalogActionView::Scan {
                dir: dir@,
                file: file@,
            }),
            CatalogAction::Lock { references } => action@ == (CatalogActionView::Lock {
                references: references@,
            }),
            CatalogAction::CreateTemp { dir, prefix } => action@ == (
            CatalogActionView::CreateTemp { dir: dir@, prefix: prefix@ }),
            CatalogAction::Write { lock, path } => action@ == (CatalogActionView::Write {
                lock: lock@,
                path: path@,
            }),
            CatalogAction::Nothing => action@ == CatalogActionView::Nothing,
        },
{
}

/// What an event tells is what it carries.
pub proof fn catalog_events_tell_what_they_carry(event: CatalogEvent)
    ensures
        match event {
            CatalogEvent::Probed(exists) => event@ == CatalogEventView::Probed(exists),
            CatalogEvent::Read(Ok(lock)) => event@ == CatalogEventView::Read(Ok(lock@)),
            CatalogEvent::Read(Err(error)) => event@ == CatalogEventView::Read(Err(error)),
            CatalogEvent::Scanned(Ok(found)) => event@ == CatalogEventView::Scanned(Ok(found@)),
            CatalogEvent::Scanned(Err(error)) => event@ == CatalogEventView::Scanned(Err(error)),
            CatalogEvent::Locked(Ok(lock)) => event@ == CatalogEventView::Locked(Ok(lock@)),
            CatalogEvent::Locked(Err(error)) => event@ == CatalogEventView::Locked(Err(error)),
            CatalogEvent::TempCreated(Ok(file)) => event@ == CatalogEventView::TempCreated(
                Ok(TempView { path: file.path@, guard: file.guard }),
            ),
            CatalogEvent::TempCreated(Err(error)) => event@ == CatalogEventView::TempCreated(
                Err(error),
            ),
            CatalogEvent::Written(reply) => event@ == CatalogEventView::Written(reply),
        },
{
}

/// Each action is answered by the events of its own kind, and by no others.
pub proof fn catalog_actions_have_their_own_answers(
    action: CatalogActionView,
    event: CatalogEventView,
)
    ensures
        event.answers(action) <==> {
            ||| action is Probe && event is Probed
            ||| action is Read && event is Read
            ||| action is Scan && event is Scanned
            ||| action is Lock && event is Locked
            ||| action is CreateTemp && event is TempCreated
            ||| action is Write && event is Written
        },
{
}

} // verus!

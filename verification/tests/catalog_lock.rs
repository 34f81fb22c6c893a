use flox_develop::build_lock::{BuildLock, LockedInputEntry, StaleLockError};
use flox_develop::catalog_lock::{
    build_catalog_lock_from_parts, catalog_lockfile_path, package_references, resolve_lock,
    resolve_reply, BuildCatalogLock, CatalogAction, CatalogEvent, TempFile, CATALOG_LOCKFILE_NAME,
};
use flox_develop::ensure::EnsureRun;
use flox_develop::error::{CatalogLockError, LockError, LockfileError, ScanError};
use flox_develop::project_lock::{lock_project_catalog, ProjectLockRun};
use flox_develop::references::{CatalogRef, RefSet};
use flox_develop::scan::scan_references;
use flox_develop::text_map::TextMap;

const COMMITTED_ENTRY: &str = r#"{
      "attr_path": ["hello"],
      "build_type": "nef",
      "catalog": "myorg",
      "locked_inputs_hash": "sha256-test",
      "source": {
        "dir": ".",
        "ref": "refs/heads/main",
        "rev": "0000000000000000000000000000000000000000",
        "type": "git",
        "url": "https://example.com/repo"
      }
    }"#;

fn committed_lock() -> BuildLock {
    let mut lock = BuildLock::default();
    lock.direct_catalog_inputs.insert(
        "myorg/hello".to_string(),
        LockedInputEntry { json: COMMITTED_ENTRY.to_string() },
    );
    lock
}

fn reference(name: &str, key: &str) -> CatalogRef {
    CatalogRef { name: name.to_string(), key: key.to_string() }
}

fn references(list: &[(&str, &str)]) -> RefSet {
    let mut set = RefSet::new();
    for (name, key) in list {
        set.insert(reference(name, key));
    }
    set
}

fn temp_file() -> (TempFile, std::path::PathBuf) {
    let guard = tempfile::NamedTempFile::new().unwrap().into_temp_path();
    let at = guard.to_path_buf();
    let path = at.to_str().unwrap().as_bytes().to_vec();
    (TempFile { path, guard }, at)
}

fn start(files: &[&str]) -> EnsureRun {
    BuildCatalogLock::ensure(
        b"/project/.flox",
        b"/project/.flox/pkgs".to_vec(),
        files.iter().map(|file| file.as_bytes().to_vec()).collect(),
        b"/tmp/flox".to_vec(),
    )
}

fn built(run: EnsureRun) -> BuildCatalogLock {
    match run {
        EnsureRun::Ended(Ok(lock)) => lock,
        other => panic!("no lock: {other:?}"),
    }
}

fn failed(run: EnsureRun) -> CatalogLockError {
    match run {
        EnsureRun::Ended(Err(error)) => error,
        other => panic!("no error: {other:?}"),
    }
}

#[test]
fn lockfile_path_joins_like_a_path() {
    assert_eq!(CATALOG_LOCKFILE_NAME, "catalog.lock");
    assert_eq!(catalog_lockfile_path(b"/project/.flox"), b"/project/.flox/catalog.lock");
    assert_eq!(catalog_lockfile_path(b"/project/.flox/"), b"/project/.flox/catalog.lock");
    assert_eq!(catalog_lockfile_path(b""), b"catalog.lock");
    assert_eq!(catalog_lockfile_path(b"/"), b"/catalog.lock");
    assert_eq!(catalog_lockfile_path(b"caf\xe9"), b"caf\xe9/catalog.lock");
    for dir in ["/project/.flox", ".flox", "/project/.flox/", "", "/", "a//", "a/."] {
        let joined = std::path::Path::new(dir).join(CATALOG_LOCKFILE_NAME);
        assert_eq!(catalog_lockfile_path(dir.as_bytes()), joined.to_str().unwrap().as_bytes());
    }
}

#[test]
fn no_references_scan_empty() {
    let found = package_references(Ok(RefSet::new())).unwrap();
    assert!(found.is_empty());
    assert_eq!(found.as_slice(), &[]);
}

#[test]
fn a_failed_scan_of_a_package_is_reported() {
    let error = package_references(Err(ScanError { message: "no such file".to_string() }));
    assert_eq!(error.unwrap_err().message(), "no such file");
    let found = package_references(Ok(references(&[("a.b", "a/b")]))).unwrap();
    assert_eq!(found.as_slice(), &[reference("a.b", "a/b")]);
}

#[test]
fn no_references_resolve_without_a_catalog_request() {
    let run = start(&["hello.nix"]);
    match run.action() {
        CatalogAction::Probe { path } => assert_eq!(path, b"/project/.flox/catalog.lock"),
        _ => panic!("the committed lock is looked for first"),
    }
    let run = run.step(CatalogEvent::Probed(false));
    match run.action() {
        CatalogAction::Scan { dir, file } => {
            assert_eq!(dir, b"/project/.flox/pkgs");
            assert_eq!(file, b"hello.nix");
        },
        _ => panic!("the expression is scanned"),
    }
    let run = run.step(CatalogEvent::Scanned(Ok(RefSet::new())));
    match run.action() {
        CatalogAction::CreateTemp { dir, prefix } => {
            assert_eq!(dir, b"/tmp/flox");
            assert_eq!(prefix, "catalog.lock.");
        },
        _ => panic!("no request is made"),
    }
    let (file, at) = temp_file();
    let path = file.path.clone();
    let run = run.step(CatalogEvent::TempCreated(Ok(file)));
    match run.action() {
        CatalogAction::Write { lock, path: to } => {
            assert_eq!(*to, path);
            assert_eq!(*lock, BuildLock::default());
            assert_eq!(lock.version, 1);
            assert!(lock.direct_catalog_inputs.is_empty());
            assert!(lock.catalogs.is_empty());
        },
        _ => panic!("the lock is written"),
    }
    let lock = built(run.step(CatalogEvent::Written(Ok(()))));

    assert!(!lock.is_committed());
    assert_eq!(lock.subset(&RefSet::new()).unwrap(), TextMap::new());
    assert_eq!(*lock.path(), path);

    assert!(at.exists());
    drop(lock);
    assert!(!at.exists());
}

#[test]
fn committed_lock_is_consumed_as_found_without_a_catalog_request() {
    let run = start(&["hello.nix"]).step(CatalogEvent::Probed(true));
    match run.action() {
        CatalogAction::Read { path } => {
            assert_eq!(*path, catalog_lockfile_path(b"/project/.flox"))
        },
        _ => panic!("the committed lock is read"),
    }
    let run = run.step(CatalogEvent::Read(Ok(committed_lock())));
    assert!(matches!(run.action(), CatalogAction::Nothing));
    let lock = built(run);

    assert!(lock.is_committed());
    assert_eq!(*lock.path(), catalog_lockfile_path(b"/project/.flox"));

    let found = package_references(Ok(references(&[("myorg.hello", "myorg/hello")]))).unwrap();
    let subset = lock.subset(&found).unwrap();
    assert_eq!(subset.keys(), vec!["myorg/hello".to_string()]);
    assert_eq!(subset.get("myorg/hello").unwrap().json, COMMITTED_ENTRY);
}

#[test]
fn stale_committed_lock_names_the_uncovered_reference() {
    let run = start(&["hello.nix"])
        .step(CatalogEvent::Probed(true))
        .step(CatalogEvent::Read(Ok(committed_lock())));
    let lock = built(run);
    assert!(lock.is_committed());

    let found = package_references(Ok(references(&[("myorg.world", "myorg/world")]))).unwrap();
    let err = lock.subset(&found).expect_err("an uncovered reference must be stale");
    assert!(err.names().contains("myorg.world"));
    assert_eq!(err.names(), "myorg.world");
    let rendered = "The catalog lock does not cover myorg.world. Update it.".to_string();
    let error = err.reported(rendered.clone());
    assert_eq!(error.message(), rendered);
    assert!(matches!(
        error,
        CatalogLockError::StaleLock { error, .. }
            if error.uncovered == vec![reference("myorg.world", "myorg/world")]
    ));
}

#[test]
fn lock_project_catalog_writes_an_empty_lock_without_a_catalog_request() {
    let lockfile = catalog_lockfile_path(b"/project/.flox");
    let run = lock_project_catalog(
        b"/project/.flox/pkgs".to_vec(),
        vec![b"hello.nix".to_vec()],
        lockfile.clone(),
    );
    match run.action() {
        CatalogAction::Scan { dir, file } => {
            assert_eq!(dir, b"/project/.flox/pkgs");
            assert_eq!(file, b"hello.nix");
        },
        _ => panic!("the expression is scanned"),
    }
    let run = run.step(CatalogEvent::Scanned(Ok(RefSet::new())));
    match run.action() {
        CatalogAction::Write { lock, path } => {
            assert_eq!(*path, lockfile);
            assert_eq!(*lock, BuildLock::default());
        },
        _ => panic!("the lock is written without a request"),
    }
    match run.step(CatalogEvent::Written(Ok(()))) {
        ProjectLockRun::Ended(Ok(found)) => assert!(found.is_empty()),
        other => panic!("not ended: {other:?}"),
    }
}

#[test]
fn the_references_of_all_expressions_are_locked_together() {
    let run = lock_project_catalog(
        b"pkgs".to_vec(),
        vec![b"a.nix".to_vec(), b"b.nix".to_vec()],
        b"catalog.lock".to_vec(),
    );
    let run = run.step(CatalogEvent::Scanned(Ok(references(&[("o.x", "o/x"), ("o.y", "o/y")]))));
    match run.action() {
        CatalogAction::Scan { file, .. } => assert_eq!(file, b"b.nix"),
        _ => panic!("the second expression is scanned"),
    }
    let run = run.step(CatalogEvent::Scanned(Ok(references(&[("o.y", "o/y"), ("o.z", "o/z")]))));
    match run.action() {
        CatalogAction::Lock { references } => {
            assert_eq!(
                references.as_slice(),
                &[reference("o.x", "o/x"), reference("o.y", "o/y"), reference("o.z", "o/z")]
            );
        },
        _ => panic!("the references are locked"),
    }
    let run = run.step(CatalogEvent::Locked(Ok(committed_lock())));
    match run.action() {
        CatalogAction::Write { lock, path } => {
            assert_eq!(*lock, committed_lock());
            assert_eq!(path, b"catalog.lock");
        },
        _ => panic!("the lock is written"),
    }
    match run.step(CatalogEvent::Written(Ok(()))) {
        ProjectLockRun::Ended(Ok(found)) => assert_eq!(found.as_slice().len(), 3),
        other => panic!("not ended: {other:?}"),
    }
}

#[test]
fn creating_the_project_lock_can_fail_at_every_step() {
    let begin = || {
        lock_project_catalog(b"pkgs".to_vec(), vec![b"a.nix".to_vec()], b"catalog.lock".to_vec())
    };
    let scan = || CatalogEvent::Scanned(Ok(references(&[("o.x", "o/x")])));
    let message = |run: ProjectLockRun| match run {
        ProjectLockRun::Ended(Err(error)) => error.message(),
        other => panic!("no error: {other:?}"),
    };
    let run = begin().step(CatalogEvent::Scanned(Err(ScanError { message: "bad".to_string() })));
    assert_eq!(message(run), "bad");
    let run = begin().step(scan()).step(CatalogEvent::Locked(Err(LockError::Other(
        "offline".to_string(),
    ))));
    assert_eq!(message(run), "offline");
    let run = begin()
        .step(scan())
        .step(CatalogEvent::Locked(Ok(committed_lock())))
        .step(CatalogEvent::Written(Err(LockfileError { message: "full".to_string() })));
    assert_eq!(message(run), "full");
}

#[test]
fn no_files_make_an_empty_lock() {
    let run = lock_project_catalog(b"pkgs".to_vec(), vec![], b"catalog.lock".to_vec());
    assert!(matches!(run.action(), CatalogAction::Write { .. }));
    let run = start(&[]).step(CatalogEvent::Probed(false));
    assert!(matches!(run.action(), CatalogAction::CreateTemp { .. }));
}

#[test]
fn an_ephemeral_lock_resolves_the_references() {
    let run = start(&["hello.nix"])
        .step(CatalogEvent::Probed(false))
        .step(CatalogEvent::Scanned(Ok(references(&[("myorg.hello", "myorg/hello")]))));
    match run.action() {
        CatalogAction::Lock { references } => {
            assert_eq!(references.as_slice(), &[reference("myorg.hello", "myorg/hello")]);
        },
        _ => panic!("the reference takes a request"),
    }
    let run = run.step(CatalogEvent::Locked(Ok(committed_lock())));
    let (file, _at) = temp_file();
    let lock = built(
        run.step(CatalogEvent::TempCreated(Ok(file))).step(CatalogEvent::Written(Ok(()))),
    );
    assert!(!lock.is_committed());
    let subset = lock.subset(&references(&[("myorg.hello", "myorg/hello")])).unwrap();
    assert_eq!(subset.keys(), vec!["myorg/hello"]);
}

#[test]
fn the_first_failing_scan_ends_the_run() {
    let run = start(&["a.nix", "b.nix", "c.nix"])
        .step(CatalogEvent::Probed(false))
        .step(CatalogEvent::Scanned(Ok(references(&[("o.x", "o/x")]))))
        .step(CatalogEvent::Scanned(Err(ScanError { message: "b is broken".to_string() })));
    assert!(matches!(run.action(), CatalogAction::Nothing));
    let error = failed(run);
    assert!(matches!(error, CatalogLockError::Scan(_)));
    assert_eq!(error.message(), "b is broken");
}

#[test]
fn unresolvable_references_are_reported_as_rendered() {
    let run = start(&["a.nix"])
        .step(CatalogEvent::Probed(false))
        .step(CatalogEvent::Scanned(Ok(references(&[("o.x", "o/x")]))))
        .step(CatalogEvent::Locked(Err(LockError::Unresolvable {
            summary: "1 unresolvable reference".to_string(),
            rendered: "o.x\n\nPublish it first.".to_string(),
        })));
    let error = failed(run);
    assert!(matches!(error, CatalogLockError::Unresolvable(_)));
    assert_eq!(error.message(), "o.x\n\nPublish it first.");
}

#[test]
fn files_that_cannot_be_made_or_read_end_the_run() {
    let error = failed(start(&["a.nix"]).step(CatalogEvent::Probed(true)).step(
        CatalogEvent::Read(Err(LockfileError { message: "not a lock".to_string() })),
    ));
    assert!(matches!(error, CatalogLockError::Lockfile(_)));
    assert_eq!(error.message(), "not a lock");

    let run = start(&[]).step(CatalogEvent::Probed(false));
    let error = failed(run.step(CatalogEvent::TempCreated(Err(std::io::Error::from(
        std::io::ErrorKind::PermissionDenied,
    )))));
    assert!(matches!(error, CatalogLockError::CreateTempFile(_)));
    assert_eq!(error.message(), "Could not create a temporary file for the catalog lock.");

    let (file, _at) = temp_file();
    let run = start(&[])
        .step(CatalogEvent::Probed(false))
        .step(CatalogEvent::TempCreated(Ok(file)))
        .step(CatalogEvent::Written(Err(LockfileError { message: "disk full".to_string() })));
    assert_eq!(failed(run).message(), "disk full");
}

#[test]
fn an_event_that_answers_nothing_is_ignored() {
    let run = start(&["a.nix"]).step(CatalogEvent::Written(Ok(())));
    assert!(matches!(run.action(), CatalogAction::Probe { .. }));
    let run = run.step(CatalogEvent::Probed(false)).step(CatalogEvent::Probed(true));
    assert!(matches!(run.action(), CatalogAction::Scan { .. }));
    let run = run.step(CatalogEvent::Scanned(Err(ScanError { message: "bad".to_string() })));
    let run = run.step(CatalogEvent::Scanned(Ok(RefSet::new())));
    assert_eq!(failed(run).message(), "bad");
}

#[test]
fn the_catalogs_reply_is_told_apart() {
    assert!(resolve_lock(&references(&[("o.x", "o/x")])).is_none());
    assert_eq!(resolve_lock(&RefSet::new()), Some(BuildLock::default()));
    assert_eq!(resolve_reply(Ok(committed_lock())).unwrap(), committed_lock());
    let other = resolve_reply(Err(LockError::Other("offline".to_string()))).unwrap_err();
    assert!(matches!(other, CatalogLockError::Lock(LockError::Other(_))));
    assert_eq!(other.message(), "offline");
    let summary = LockError::Unresolvable { summary: "2".to_string(), rendered: "r".to_string() };
    assert_eq!(summary.message(), "2");
    assert_eq!(CatalogLockError::Lock(summary).message(), "2");
}

#[test]
fn a_lock_from_parts_is_committed_without_a_temporary_file() {
    let lock = build_catalog_lock_from_parts(b"/l".to_vec(), committed_lock(), None);
    assert!(lock.is_committed());
    assert_eq!(lock.path(), b"/l");
    let (file, _at) = temp_file();
    let lock = build_catalog_lock_from_parts(b"/m".to_vec(), committed_lock(), Some(file.guard));
    assert!(!lock.is_committed());
    assert_eq!(lock.path(), b"/m");
}

#[test]
fn a_subset_selects_entries_or_lists_what_is_missing() {
    let mut lock = committed_lock();
    lock.direct_catalog_inputs
        .insert("myorg/abc".to_string(), LockedInputEntry { json: "{}".to_string() });
    lock.direct_catalog_inputs
        .insert("other/abc".to_string(), LockedInputEntry { json: "{}".to_string() });
    let lock = build_catalog_lock_from_parts(b"/l".to_vec(), lock, None);
    let subset = lock
        .subset(&references(&[("myorg.hello", "myorg/hello"), ("myorg.abc", "myorg/abc")]))
        .unwrap();
    assert_eq!(subset.keys(), vec!["myorg/abc", "myorg/hello"]);
    let stale = lock
        .subset(&references(&[
            ("z.z", "z/z"),
            ("myorg.hello", "myorg/hello"),
            ("a.a", "a/a"),
        ]))
        .unwrap_err();
    assert_eq!(stale.uncovered, vec![reference("a.a", "a/a"), reference("z.z", "z/z")]);
    assert_eq!(stale.names(), "a.a, z.z");
    assert_eq!(StaleLockError { uncovered: vec![] }.names(), "");
}

#[test]
fn references_stand_in_one_order_however_they_came() {
    let all =
        [("b", "x"), ("a", "y"), ("a", "x"), ("a-", "x"), ("", "z"), ("\u{e9}", ""), ("a", "")];
    let sorted = ["", "a", "a", "a", "a-", "b", "\u{e9}"];
    let keys = ["z", "", "x", "y", "x", "x", ""];
    let forwards = references(&all);
    let mut backwards = all.to_vec();
    backwards.reverse();
    let backwards = references(&backwards);
    assert_eq!(forwards.as_slice(), backwards.as_slice());
    let listed: Vec<CatalogRef> =
        sorted.iter().zip(keys).map(|(name, key)| reference(name, key)).collect();
    assert_eq!(forwards.as_slice(), listed);

    let mut halves = references(&all[4..]);
    halves.extend(&references(&all[..5]));
    assert_eq!(halves.as_slice(), listed);
    halves.insert(reference("a", "x"));
    assert_eq!(halves.as_slice(), listed);

    let empty = build_catalog_lock_from_parts(b"/l".to_vec(), BuildLock::default(), None);
    for found in [&forwards, &backwards, &halves] {
        assert_eq!(empty.subset(found).unwrap_err().uncovered, listed);
    }
}

#[test]
fn a_scan_gathers_each_reference_once() {
    let run = scan_references(b"pkgs".to_vec(), vec![b"a.nix".to_vec(), b"b.nix".to_vec()]);
    assert_eq!(run.dir(), b"pkgs");
    assert_eq!(run.next_file().unwrap(), b"a.nix");
    let run = run.record(&references(&[("o.x", "o/x")]));
    assert_eq!(run.next_file().unwrap(), b"b.nix");
    let run = run.record(&references(&[("o.x", "o/x"), ("o.y", "o/y")]));
    assert!(run.next_file().is_none());
    let run = run.record(&references(&[("o.z", "o/z")]));
    let found = run.into_references();
    assert_eq!(found.as_slice(), &[reference("o.x", "o/x"), reference("o.y", "o/y")]);
    assert!(found.contains(&reference("o.y", "o/y")));
    assert!(!found.contains(&reference("o.z", "o/z")));
}

#[test]
fn an_ephemeral_lock_is_not_the_projects_lockfile() {
    let run = start(&["a.nix", "hello.nix"])
        .step(CatalogEvent::Probed(false))
        .step(CatalogEvent::Scanned(Ok(RefSet::new())))
        .step(CatalogEvent::Scanned(Ok(references(&[("myorg.hello", "myorg/hello")]))))
        .step(CatalogEvent::Locked(Ok(committed_lock())));
    let prefix = match run.action() {
        CatalogAction::CreateTemp { prefix, .. } => prefix.to_string(),
        _ => panic!("the lock gets a temporary file"),
    };
    let guard = tempfile::Builder::new().prefix(&prefix).tempfile().unwrap().into_temp_path();
    let parent = guard.parent().unwrap().to_str().unwrap().as_bytes().to_vec();
    let path = guard.to_str().unwrap().as_bytes().to_vec();
    let run = run
        .step(CatalogEvent::TempCreated(Ok(TempFile { path: path.clone(), guard })))
        .step(CatalogEvent::Written(Ok(())));
    let lock = built(run);
    assert!(!lock.is_committed());
    assert_eq!(*lock.path(), path);
    assert_ne!(*lock.path(), catalog_lockfile_path(b"/project/.flox"));
    assert_ne!(*lock.path(), catalog_lockfile_path(&parent));
    let hello = package_references(Ok(references(&[("myorg.hello", "myorg/hello")]))).unwrap();
    assert_eq!(lock.subset(&hello).unwrap().keys(), vec!["myorg/hello"]);
    assert!(lock.subset(&RefSet::new()).unwrap().is_empty());
}

#[test]
fn two_ephemeral_locks_are_apart() {
    let ephemeral = || {
        let guard =
            tempfile::Builder::new().prefix("catalog.lock.").tempfile().unwrap().into_temp_path();
        let at = guard.to_path_buf();
        let path = at.to_str().unwrap().as_bytes().to_vec();
        let run = start(&["hello.nix"])
            .step(CatalogEvent::Probed(false))
            .step(CatalogEvent::Scanned(Ok(RefSet::new())))
            .step(CatalogEvent::TempCreated(Ok(TempFile { path, guard })))
            .step(CatalogEvent::Written(Ok(())));
        (built(run), at)
    };
    let (first, first_at) = ephemeral();
    let (second, second_at) = ephemeral();
    assert!(!first.is_committed() && !second.is_committed());
    assert_ne!(first.path(), second.path());
    assert_ne!(*first.path(), catalog_lockfile_path(b"/project/.flox"));
    assert_ne!(*second.path(), catalog_lockfile_path(b"/project/.flox"));
    assert!(first_at.exists() && second_at.exists());
    drop(first);
    assert!(!first_at.exists() && second_at.exists());
}

#[test]
fn no_temporary_file_is_made_for_references_that_are_not_resolved() {
    let run = start(&["hello.nix"])
        .step(CatalogEvent::Probed(false))
        .step(CatalogEvent::Scanned(Ok(references(&[("o.x", "o/x")]))));
    assert!(matches!(run.action(), CatalogAction::Lock { .. }));
    let run = run.step(CatalogEvent::Locked(Err(LockError::Other("offline".to_string()))));
    assert!(matches!(run.action(), CatalogAction::Nothing));
    assert_eq!(failed(run).message(), "offline");
}

#[test]
fn map_keys_stand_in_the_order_of_strings() {
    let mut map: TextMap<u32> = TextMap::new();
    let keys = ["b", "a/b", "a", "", "a.b", "\u{e9}", "z", "a-b", "\u{10000}", "\u{ffff}"];
    for (i, key) in keys.iter().enumerate() {
        map.insert(key.to_string(), i as u32);
    }
    let mut sorted: Vec<String> = keys.iter().map(|key| key.to_string()).collect();
    sorted.sort();
    assert_eq!(map.keys(), sorted);
    map.insert("a".to_string(), 70);
    assert_eq!(map.keys(), sorted);
    assert_eq!(map.get("a"), Some(&70));
    assert_eq!(map.get("a/b"), Some(&1));
    assert_eq!(map.get("a/"), None);
    assert!(!map.is_empty());
}

#[test]
fn builds_consume_the_lock_that_was_created() {
    let lockfile = catalog_lockfile_path(b"/project/.flox");
    let run = lock_project_catalog(
        b"/project/.flox/pkgs".to_vec(),
        vec![b"a.nix".to_vec(), b"hello.nix".to_vec()],
        lockfile.clone(),
    )
    .step(CatalogEvent::Scanned(Ok(RefSet::new())))
    .step(CatalogEvent::Scanned(Ok(references(&[("myorg.hello", "myorg/hello")]))))
    .step(CatalogEvent::Locked(Ok(committed_lock())));
    let written = match run {
        ProjectLockRun::Writing { lock, lockfile: path, .. } => {
            assert_eq!(path, lockfile);
            lock
        },
        other => panic!("not written: {other:?}"),
    };
    let build = start(&["hello.nix"])
        .step(CatalogEvent::Probed(true))
        .step(CatalogEvent::Read(Ok(written)));
    let lock = built(build);
    assert_eq!(*lock.path(), lockfile);
    assert!(lock.is_committed());
    assert!(lock.subset(&references(&[("myorg.hello", "myorg/hello")])).is_ok());
    assert!(lock.subset(&RefSet::new()).unwrap().is_empty());
}

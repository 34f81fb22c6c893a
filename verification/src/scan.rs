//! Scanning a project's expressions for catalog references, one file after the other.

use vstd::prelude::*;

use crate::error::ScanError;
use crate::references::{RefSet, RefView};

verus! {

/// A scan of the expressions at `files` (relative to `dir`) that has come to the file at
/// `done`.
#[derive(Debug)]
pub struct ScanRun {
    dir: Vec<u8>,
    files: Vec<Vec<u8>>,
    done: usize,
    references: RefSet,
}

/// What a [ScanRun] stands for.
#[verifier::ext_equal]
pub struct ScanView {
    pub dir: Seq<u8>,
    pub files: Seq<Seq<u8>>,
    /// How many files have been scanned.
    pub done: nat,
    /// The references that they make.
    pub references: Set<RefView>,
}

/// What scanning one file gives.
pub type ScanReply = Result<Set<RefView>, ScanError>;

/// What scanning files gives, from what scanning each of them gives: the references of all of
/// them, or the error of the first that cannot be scanned.
pub open spec fn scanned(replies: Seq<ScanReply>) -> ScanReply
    decreases replies.len(),
{
    if replies.len() == 0 {
        Ok(Set::empty())
    } else {
        match (scanned(replies.drop_last()), replies.last()) {
            (Err(error), _) => Err(error),
            (Ok(_), Err(error)) => Err(error),
            (Ok(earlier), Ok(found)) => Ok(earlier.union(found)),
        }
    }
}

impl ScanView {
    /// A scan that has not begun.
    pub open spec fn start(dir: Seq<u8>, files: Seq<Seq<u8>>) -> ScanView {
        ScanView { dir, files, done: 0, references: Set::empty() }
    }

    /// Whether no file is left to scan.
    pub open spec fn complete(self) -> bool {
        self.done >= self.files.len()
    }

    /// The scan after the next file turned out to make the references `found`.
    pub open spec fn found(self, found: Set<RefView>) -> ScanView {
        ScanView { done: self.done + 1, references: self.references.union(found), ..self }
    }

    /// The scan after `found` has been recorded. Once every file is scanned, nothing changes.
    pub open spec fn recorded(self, found: Set<RefView>) -> ScanView {
        if self.complete() {
            self
        } else {
            self.found(found)
        }
    }

    /// The scan after the references of one file after the other have been recorded.
    pub open spec fn recorded_all(self, found: Seq<Set<RefView>>) -> ScanView
        decreases found.len(),
    {
        if found.len() == 0 {
            self
        } else {
            self.recorded_all(found.drop_last()).recorded(found.last())
        }
    }
}

/// The references that scanned files make.
pub open spec fn findings(replies: Seq<ScanReply>) -> Seq<Set<RefView>> {
    replies.map_values(|reply: ScanReply| reply->Ok_0)
}

impl View for ScanRun {
    type V = ScanView;

    closed spec fn view(&self) -> ScanView {
        ScanView {
            dir: self.dir@,
            files: self.files.deep_view(),
            done: self.done as nat,
            references: self.references@,
        }
    }
}

/// The scan of the expressions named by `rel_file_paths` (relative to `expressions_dir`), for
/// the union of their catalog references.
pub fn scan_references(expressions_dir: Vec<u8>, rel_file_paths: Vec<Vec<u8>>) -> (run: ScanRun)
    ensures
        run@ == ScanView::start(expressions_dir@, rel_file_paths.deep_view()),
{
    ScanRun { dir: expressions_dir, files: rel_file_paths, done: 0, references: RefSet::new() }
}

impl ScanRun {
    /// The directory that the files are relative to.
    pub fn dir(&self) -> (dir: &Vec<u8>)
        ensures
            dir@ == self@.dir,
    {
        &self.dir
    }

    /// The file to scan next.
    pub fn next_file(&self) -> (file: Option<&Vec<u8>>)
        ensures
            match file {
                Some(path) => !self@.complete() && path@ == self@.files[self@.done as int],
                None => self@.complete(),
            },
    {
        if self.done < self.files.len() {
            Some(&self.files[self.done])
        } else {
            None
        }
    }

    /// The references found so far.
    pub fn into_references(self) -> (references: RefSet)
        ensures
            references@ == self@.references,
    {
        self.references
    }

    /// The scan after the next file turned out to make the references `found`. Once every
    /// file is scanned, nothing changes.
    pub fn record(self, found: &RefSet) -> (run: ScanRun)
        ensures
            run@ == self@.recorded(found@),
    {
        let ScanRun { dir, files, done, mut references } = self;
        if done < files.len() {
            references.extend(found);
            ScanRun { dir, files, done: done + 1, references }
        } else {
            ScanRun { dir, files, done, references }
        }
    }
}

/// The scanned references are exactly those that some file makes, and a scan succeeds
/// exactly when every file can be scanned.
pub proof fn scan_is_union(replies: Seq<ScanReply>)
    ensures
        scanned(replies) is Ok <==> forall|i: int| 0 <= i < replies.len() ==> #[trigger]
            replies[i] is Ok,
        scanned(replies) is Ok ==> forall|r: RefView| #[trigger]
            scanned(replies)->Ok_0.contains(r) <==> exists|i: int|
                0 <= i < replies.len() && (#[trigger] replies[i])->Ok_0.contains(r),
    decreases replies.len(),
{
    if replies.len() > 0 {
        let earlier = replies.drop_last();
        scan_is_union(earlier);
        assert(forall|i: int| 0 <= i < earlier.len() ==> earlier[i] == replies[i]);
        if scanned(replies) is Ok {
            assert forall|i: int| 0 <= i < replies.len() implies #[trigger] replies[i] is Ok by {
                if i < earlier.len() {
                    assert(earlier[i] is Ok);
                }
            }
            assert forall|r: RefView| #[trigger] scanned(replies)->Ok_0.contains(r) <==> exists|
                i: int,
            |
                0 <= i < replies.len() && (#[trigger] replies[i])->Ok_0.contains(r) by {
                if scanned(earlier)->Ok_0.contains(r) {
                    let i = choose|i: int|
                        0 <= i < earlier.len() && (#[trigger] earlier[i])->Ok_0.contains(r);
                    assert(replies[i]->Ok_0.contains(r));
                }
                if exists|i: int|
                    0 <= i < replies.len() && (#[trigger] replies[i])->Ok_0.contains(r) {
                    let i = choose|i: int|
                        0 <= i < replies.len() && (#[trigger] replies[i])->Ok_0.contains(r);
                    if i < earlier.len() {
                        assert(earlier[i]->Ok_0.contains(r));
                    }
                }
            }
        }
    }
}

/// A failed scan reports the first file that cannot be scanned.
pub proof fn scan_reports_first_failure(replies: Seq<ScanReply>, failing: int)
    requires
        0 <= failing < replies.len(),
        replies[failing] is Err,
        forall|i: int| 0 <= i < failing ==> #[trigger] replies[i] is Ok,
    ensures
        scanned(replies) == replies[failing],
    decreases replies.len(),
{
    let earlier = replies.drop_last();
    if failing == replies.len() - 1 {
        scan_is_union(earlier);
        assert(forall|i: int| 0 <= i < earlier.len() ==> earlier[i] == replies[i]);
    } else {
        assert(earlier[failing] == replies[failing]);
        scan_reports_first_failure(earlier, failing);
    }
}

/// A scan that came as far as a file that cannot be scanned reports that file.
pub proof fn scan_failed_at(replies: Seq<ScanReply>, failing: int)
    requires
        0 <= failing < replies.len(),
        replies[failing] is Err,
        scanned(replies.take(failing)) is Ok,
    ensures
        scanned(replies) == replies[failing],
{
    let earlier = replies.take(failing);
    scan_is_union(earlier);
    assert forall|i: int| 0 <= i < failing implies #[trigger] replies[i] is Ok by {
        assert(earlier[i] is Ok);
    }
    scan_reports_first_failure(replies, failing);
}

/// A scan comes to what scanning its files gives: with the references of each of the first
/// files recorded it holds those of all of them together, and it is complete exactly when no
/// file is left.
pub proof fn scan_run_gives_what_is_scanned(
    dir: Seq<u8>,
    files: Seq<Seq<u8>>,
    replies: Seq<ScanReply>,
)
    requires
        replies.len() <= files.len(),
        scanned(replies) is Ok,
    ensures
        ({
            let run = ScanView::start(dir, files).recorded_all(findings(replies));
            &&& run == (ScanView {
                dir,
                files,
                done: replies.len(),
                references: scanned(replies)->Ok_0,
            })
            &&& run.complete() <==> replies.len() == files.len()
        }),
    decreases replies.len(),
{
    if replies.len() > 0 {
        let earlier = replies.drop_last();
        assert(findings(replies).drop_last() =~= findings(earlier));
        scan_run_gives_what_is_scanned(dir, files, earlier);
    }
}

/// What is recorded file by file is exactly the union: with the references of each of the first
/// files recorded, a scan has come to the next file, and holds a reference exactly when one of
/// those files makes it.
pub proof fn recorded_references_are_the_union(
    dir: Seq<u8>,
    files: Seq<Seq<u8>>,
    found: Seq<Set<RefView>>,
)
    requires
        found.len() <= files.len(),
    ensures
        ({
            let run = found.fold_left(
                ScanView::start(dir, files),
                |run: ScanView, next: Set<RefView>| run.recorded(next),
            );
            &&& run.dir == dir
            &&& run.files == files
            &&& run.done == found.len()
            &&& run.complete() <==> found.len() == files.len()
            &&& forall|r: RefView| #[trigger]
                run.references.contains(r) <==> exists|i: int|
                    0 <= i < found.len() && (#[trigger] found[i]).contains(r)
        }),
    decreases found.len(),
{
    let record = |run: ScanView, next: Set<RefView>| run.recorded(next);
    let run = found.fold_left(ScanView::start(dir, files), record);
    if found.len() > 0 {
        let earlier = found.drop_last();
        recorded_references_are_the_union(dir, files, earlier);
        let before = earlier.fold_left(ScanView::start(dir, files), record);
        assert(run == before.recorded(found.last()));
        assert forall|r: RefView| #[trigger] run.references.contains(r) <==> exists|i: int|
            0 <= i < found.len() && (#[trigger] found[i]).contains(r) by {
            if before.references.contains(r) {
                let i = choose|i: int|
                    0 <= i < earlier.len() && (#[trigger] earlier[i]).contains(r);
                assert(found[i].contains(r));
            }
            if found.last().contains(r) {
                assert(found[found.len() - 1].contains(r));
            }
            if exists|i: int| 0 <= i < found.len() && (#[trigger] found[i]).contains(r) {
                let i = choose|i: int| 0 <= i < found.len() && (#[trigger] found[i]).contains(r);
                if i < earlier.len() {
                    assert(earlier[i].contains(r));
                }
            }
        }
    }
}

/// Once every file is scanned, nothing more is recorded.
pub proof fn complete_scan_records_nothing(run: ScanView, found: Set<RefView>)
    requires
        run.done >= run.files.len(),
    ensures
        run.complete(),
        run.recorded(found) == run,
{
}

} // verus!

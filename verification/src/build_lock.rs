//! The contents of a catalog lock, and what a set of references selects from it.

use vstd::prelude::*;

use crate::references::{
    ascending_list_is_unique,
    pushed_set,
    ref_precedes,
    refs_ascending,
    CatalogRef,
    RefSet,
    RefView,
};
use crate::text::{mentioned_within, mentions, mentions_itself};
use crate::text_map::TextMap;

verus! {

/// The pinned source of one catalog package, as the lock file writes it.
#[derive(Debug, PartialEq, Eq)]
pub struct LockedInputEntry {
    pub json: String,
}

impl LockedInputEntry {
    /// A second copy of this entry.
    pub fn copy(&self) -> (copy: LockedInputEntry)
        ensures
            copy == *self,
    {
        LockedInputEntry { json: self.json.clone() }
    }
}

/// A catalog lock.
#[derive(Debug, PartialEq, Eq)]
pub struct BuildLock {
    pub version: u64,
    /// The packages that the expressions refer to themselves, by key.
    pub direct_catalog_inputs: TextMap<LockedInputEntry>,
    /// The catalogs that those packages draw on, by name, as the lock file writes them.
    pub catalogs: TextMap<String>,
}

/// What a [BuildLock] holds.
pub struct LockView {
    pub version: u64,
    pub direct: Map<Seq<char>, LockedInputEntry>,
    pub catalogs: Map<Seq<char>, String>,
}

/// The version of the lock format that new locks are written in.
pub const LOCK_VERSION: u64 = 1;

impl LockView {
    /// The lock that pins nothing.
    pub open spec fn empty() -> LockView {
        LockView { version: LOCK_VERSION, direct: Map::empty(), catalogs: Map::empty() }
    }

    /// Whether the lock has an entry for `reference`.
    pub open spec fn covers(self, reference: RefView) -> bool {
        self.direct.contains_key(reference.key)
    }

    /// Whether the lock has an entry for every one of `references`.
    pub open spec fn covers_all(self, references: Set<RefView>) -> bool {
        forall|r: RefView| #[trigger] references.contains(r) ==> self.covers(r)
    }

    /// Those of `references` that the lock has no entry for.
    pub open spec fn uncovered(self, references: Set<RefView>) -> Set<RefView> {
        references.filter(|r: RefView| !self.covers(r))
    }

    /// The entries that `references` select.
    pub open spec fn selected(self, references: Set<RefView>) -> Map<Seq<char>, LockedInputEntry> {
        self.direct.restrict(keys_selected(references))
    }
}

/// The keys of the entries that `references` ask for.
pub open spec fn keys_selected(references: Set<RefView>) -> Set<Seq<char>> {
    Set::new(|key: Seq<char>| exists|r: RefView| #[trigger] references.contains(r) && r.key == key)
}

impl View for BuildLock {
    type V = LockView;

    open spec fn view(&self) -> LockView {
        LockView {
            version: self.version,
            direct: self.direct_catalog_inputs@,
            catalogs: self.catalogs@,
        }
    }
}

proof fn uncovered_insert(lock: LockView, references: Set<RefView>, next: RefView)
    ensures
        lock.uncovered(references.insert(next)) == if lock.covers(next) {
            lock.uncovered(references)
        } else {
            lock.uncovered(references).insert(next)
        },
{
    let more = references.insert(next);
    assert(lock.covers(next) ==> lock.uncovered(more) =~= lock.uncovered(references));
    assert(!lock.covers(next) ==> lock.uncovered(more) =~= lock.uncovered(references).insert(next));
}

proof fn selected_insert(lock: LockView, references: Set<RefView>, next: RefView)
    ensures
        lock.selected(references.insert(next)) == if lock.covers(next) {
            lock.selected(references).insert(next.key, lock.direct[next.key])
        } else {
            lock.selected(references)
        },
{
    let more = references.insert(next);
    assert(keys_selected(more) =~= keys_selected(references).insert(next.key)) by {
        assert(more.contains(next));
        assert forall|key: Seq<char>| keys_selected(references).contains(key) implies keys_selected(
            more,
        ).contains(key) by {
            let r = choose|r: RefView| #[trigger] references.contains(r) && r.key == key;
            assert(more.contains(r));
        }
    }
    assert(lock.covers(next) ==> lock.selected(more) =~= lock.selected(references).insert(
        next.key,
        lock.direct[next.key],
    ));
    assert(!lock.covers(next) ==> lock.selected(more) =~= lock.selected(references));
}

/// References that a lock has no entry for, because it was made before they were.
#[derive(Debug)]
pub struct StaleLockError {
    pub uncovered: Vec<CatalogRef>,
}

/// The names of `references`, separated by a comma and a space.
pub open spec fn names_joined(references: Seq<RefView>) -> Seq<char>
    decreases references.len(),
{
    if references.len() == 0 {
        Seq::empty()
    } else if references.len() == 1 {
        references[0].name
    } else {
        names_joined(references.drop_last()) + ", "@ + references.last().name
    }
}

impl StaleLockError {
    /// The uncovered references, as messages name them.
    pub fn names(&self) -> (names: String)
        ensures
            names@ == names_joined(self.uncovered.deep_view()),
    {
        let mut names = String::new();
        let mut i: usize = 0;
        let ghost all = self.uncovered.deep_view();
        while i < self.uncovered.len()
            invariant
                i <= self.uncovered@.len(),
                all == self.uncovered.deep_view(),
                names@ == names_joined(all.take(i as int)),
            decreases self.uncovered.len() - i,
        {
            if i > 0 {
                names.append(", ");
            }
            names.append(self.uncovered[i].name.as_str());
            proof {
                assert(all.take(i + 1).drop_last() =~= all.take(i as int));
                assert(all[i as int] == self.uncovered@[i as int]@);
                assert(names@ =~= names_joined(all.take(i + 1)));
            }
            i += 1;
        }
        assert(all.take(i as int) =~= all);
        names
    }
}

impl Default for BuildLock {
    /// The lock that pins nothing.
    fn default() -> (lock: BuildLock)
        ensures
            lock@ == LockView::empty(),
    {
        BuildLock {
            version: LOCK_VERSION,
            direct_catalog_inputs: TextMap::new(),
            catalogs: TextMap::new(),
        }
    }
}

impl BuildLock {
    /// The entries that `references` select, or the references that have none.
    pub fn subset_direct(&self, references: &RefSet) -> (selection: Result<
        TextMap<LockedInputEntry>,
        StaleLockError,
    >)
        ensures
            selection is Ok <==> self@.covers_all(references@),
            selection is Ok <==> forall|r: RefView| #[trigger]
                references@.contains(r) ==> self@.direct.contains_key(r.key),
            match selection {
                Ok(subset) => subset@ == self@.selected(references@),
                Err(stale) => {
                    &&& refs_ascending(stale.uncovered.deep_view())
                    &&& stale.uncovered.deep_view().to_set() == self@.uncovered(references@)
                },
            },
    {
        let refs = references.as_slice();
        let ghost all = references.listed();
        let mut subset: TextMap<LockedInputEntry> = TextMap::new();
        let mut uncovered: Vec<CatalogRef> = Vec::new();
        let mut i: usize = 0;
        while i < refs.len()
            invariant
                i <= refs@.len(),
                all == refs.deep_view(),
                refs_ascending(all),
                refs_ascending(uncovered.deep_view()),
                uncovered.deep_view().to_set() == self@.uncovered(all.take(i as int).to_set()),
                subset@ == self@.selected(all.take(i as int).to_set()),
            decreases refs.len() - i,
        {
            let ghost seen = all.take(i as int);
            let ghost next = all[i as int];
            let ghost missed = uncovered.deep_view();
            match self.direct_catalog_inputs.get(refs[i].key.as_str()) {
                Some(entry) => subset.insert(refs[i].key.clone(), entry.copy()),
                None => uncovered.push(refs[i].copy()),
            }
            proof {
                assert(next == refs@[i as int]@);
                assert(all.take(i + 1) =~= seen.push(next));
                pushed_set(seen, next);
                uncovered_insert(self@, seen.to_set(), next);
                if !self@.covers(next) {
                    assert(uncovered.deep_view() =~= missed.push(next));
                    pushed_set(missed, next);
                    assert forall|j: int| 0 <= j < missed.len() implies ref_precedes(
                        #[trigger] missed[j],
                        next,
                    ) by {
                        assert(missed.to_set().contains(missed[j]));
                        let k = seen.index_of(missed[j]);
                        assert(all[k] == missed[j]);
                    }
                } else {
                    assert(uncovered.deep_view() =~= missed);
                }
                selected_insert(self@, seen.to_set(), next);
            }
            i += 1;
        }
        proof {
            assert(all.take(i as int) =~= all);
            let left = uncovered.deep_view();
            if left.len() > 0 {
                assert(left.to_set().contains(left[0]));
            } else {
                assert forall|r: RefView| #[trigger] references@.contains(r) implies self@.covers(
                    r,
                ) by {
                    assert(self@.covers(r) || self@.uncovered(references@).contains(r));
                }
            }
        }
        if uncovered.len() == 0 {
            Ok(subset)
        } else {
            Err(StaleLockError { uncovered })
        }
    }
}

/// No references select nothing, from any lock.
pub proof fn no_references_select_nothing(lock: LockView)
    ensures
        lock.covers_all(Set::<RefView>::empty()),
        lock.selected(Set::<RefView>::empty()) == Map::<Seq<char>, LockedInputEntry>::empty(),
{
    assert(lock.selected(Set::<RefView>::empty()) =~= Map::<
        Seq<char>,
        LockedInputEntry,
    >::empty());
}

/// A selection holds the lock's entry for every reference that the lock covers, and no entry
/// that no reference asks for.
pub proof fn selection_is_what_was_asked_for(lock: LockView, references: Set<RefView>)
    ensures
        forall|r: RefView| #[trigger]
            references.contains(r) && lock.covers(r) ==> {
                &&& lock.selected(references).contains_key(r.key)
                &&& lock.selected(references)[r.key] == lock.direct[r.key]
            },
        forall|key: Seq<char>| #[trigger]
            lock.selected(references).contains_key(key) ==> exists|r: RefView| #[trigger]
                references.contains(r) && r.key == key,
{
}

/// References that a lock covers are covered in any part too, and a part selects nothing that
/// the whole does not.
pub proof fn part_of_covered_references_is_covered(
    lock: LockView,
    part: Set<RefView>,
    references: Set<RefView>,
)
    requires
        lock.covers_all(references),
        part.subset_of(references),
    ensures
        lock.covers_all(part),
        lock.selected(part).submap_of(lock.selected(references)),
{
    assert forall|key: Seq<char>| lock.selected(part).contains_key(key) implies lock.selected(
        references,
    ).contains_key(key) by {
        let r = choose|r: RefView| #[trigger] part.contains(r) && r.key == key;
        assert(references.contains(r));
    }
}

/// The report of a stale lock names every one of the uncovered references.
pub proof fn uncovered_references_are_named(uncovered: Seq<RefView>, i: int)
    requires
        0 <= i < uncovered.len(),
    ensures
        mentions(names_joined(uncovered), uncovered[i].name),
    decreases uncovered.len(),
{
    let name = uncovered[i].name;
    mentions_itself(name);
    if uncovered.len() > 1 {
        let earlier = names_joined(uncovered.drop_last());
        let none = Seq::<char>::empty();
        if i == uncovered.len() - 1 {
            mentioned_within(earlier + ", "@, name, none, name);
            assert(names_joined(uncovered) =~= earlier + ", "@ + name + none);
        } else {
            uncovered_references_are_named(uncovered.drop_last(), i);
            let rest = ", "@ + uncovered.last().name;
            mentioned_within(none, earlier, rest, name);
            assert(names_joined(uncovered) =~= none + earlier + rest);
        }
    }
}

/// The report of a stale lock is the same for the same references, however they were gathered:
/// two reports of the uncovered ones, each in ascending order, are one and the same.
pub proof fn stale_report_depends_on_the_set_alone(
    lock: LockView,
    references: Set<RefView>,
    first: Seq<RefView>,
    second: Seq<RefView>,
)
    requires
        refs_ascending(first),
        refs_ascending(second),
        first.to_set() == lock.uncovered(references),
        second.to_set() == lock.uncovered(references),
    ensures
        first == second,
        forall|r: RefView| #[trigger]
            first.contains(r) <==> references.contains(r) && !lock.covers(r),
{
    ascending_list_is_unique(first, second);
    assert forall|r: RefView| #[trigger] first.contains(r) <==> references.contains(r)
        && !lock.covers(r) by {
        assert(first.to_set().contains(r) == lock.uncovered(references).contains(r));
    }
}

/// What a lock stands for is its version, its direct inputs and its catalogs, each as it is.
pub proof fn locks_stand_for_all_they_hold(lock: BuildLock)
    ensures
        lock@.version == lock.version,
        lock@.direct == lock.direct_catalog_inputs@,
        lock@.catalogs == lock.catalogs@,
{
}

/// The lock that pins nothing is of version 1, and has neither direct inputs nor catalogs.
pub proof fn empty_lock_pins_nothing(key: Seq<char>)
    ensures
        LockView::empty().version == 1,
        !LockView::empty().direct.contains_key(key),
        !LockView::empty().catalogs.contains_key(key),
        LockView::empty().direct == Map::<Seq<char>, LockedInputEntry>::empty(),
        LockView::empty().catalogs == Map::<Seq<char>, String>::empty(),
{
}

/// Whether references are covered is decided by the keys of the direct inputs alone, whatever
/// the lock's version and catalogs: all are covered exactly when each has its key there, and one
/// is reported exactly when it has not.
pub proof fn keys_decide_what_is_covered(lock: LockView, references: Set<RefView>)
    ensures
        lock.covers_all(references) <==> forall|r: RefView| #[trigger]
            references.contains(r) ==> lock.direct.contains_key(r.key),
        forall|r: RefView| #[trigger]
            lock.uncovered(references).contains(r) <==> references.contains(r)
                && !lock.direct.contains_key(r.key),
{
}

/// What references select is exactly those direct inputs that one of them has the key of, with
/// the entries that the lock has for them.
pub proof fn keys_decide_what_is_selected(lock: LockView, references: Set<RefView>)
    ensures
        forall|key: Seq<char>| #[trigger]
            lock.selected(references).contains_key(key) <==> lock.direct.contains_key(key) && exists|
                r: RefView,
            | #[trigger]
                references.contains(r) && r.key == key,
        forall|key: Seq<char>|
            lock.selected(references).contains_key(key) ==> #[trigger] lock.selected(
                references,
            )[key] == lock.direct[key],
{
}

/// Locks with the same direct inputs cover, report and select the same, however else they
/// differ.
pub proof fn direct_inputs_alone_count(first: LockView, second: LockView, references: Set<RefView>)
    requires
        first.direct == second.direct,
    ensures
        first.covers_all(references) == second.covers_all(references),
        first.uncovered(references) == second.uncovered(references),
        first.selected(references) == second.selected(references),
{
    keys_decide_what_is_covered(first, references);
    keys_decide_what_is_covered(second, references);
    keys_decide_what_is_selected(first, references);
    keys_decide_what_is_selected(second, references);
    assert(first.uncovered(references) =~= second.uncovered(references));
    assert(first.selected(references) =~= second.selected(references));
}

/// One name is told as it is, and two lists of names are told one after the other, with a comma
/// and a space between them.
pub proof fn names_are_told_in_order(first: Seq<RefView>, second: Seq<RefView>)
    requires
        first.len() > 0,
        second.len() > 0,
    ensures
        names_joined(Seq::<RefView>::empty()) == Seq::<char>::empty(),
        names_joined(seq![first[0]]) == first[0].name,
        names_joined(first + second) == names_joined(first) + ", "@ + names_joined(second),
    decreases second.len(),
{
    let all = first + second;
    if second.len() == 1 {
        assert(all.drop_last() =~= first);
    } else {
        let shorter = second.drop_last();
        names_are_told_in_order(first, shorter);
        assert(all.drop_last() =~= first + shorter);
        assert(names_joined(all) =~= names_joined(first) + ", "@ + names_joined(second));
    }
}

} // verus!

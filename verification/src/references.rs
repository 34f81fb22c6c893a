//! References to catalog packages, and sets of them.

use vstd::prelude::*;
use vstd::utf8::*;

use crate::order::{place, precedes_irreflexive, precedes_transitive, text_precedes, Placement};

verus! {

/// A reference to a catalog package made by a Nix expression.
#[derive(Debug, PartialEq, Eq)]
pub struct CatalogRef {
    /// The reference as messages name it, such as `myorg.hello`.
    pub name: String,
    /// The key of the lock entry that pins the package, such as `myorg/hello`.
    pub key: String,
}

/// What a [CatalogRef] stands for.
pub struct RefView {
    pub name: Seq<char>,
    pub key: Seq<char>,
}

impl View for CatalogRef {
    type V = RefView;

    open spec fn view(&self) -> RefView {
        RefView { name: self.name@, key: self.key@ }
    }
}

impl DeepView for CatalogRef {
    type V = RefView;

    open spec fn deep_view(&self) -> RefView {
        self@
    }
}

impl CatalogRef {
    /// A second copy of this reference.
    pub fn copy(&self) -> (copy: CatalogRef)
        ensures
            copy@ == self@,
    {
        CatalogRef { name: self.name.clone(), key: self.key.clone() }
    }

    /// Where this reference stands relative to `other`.
    pub fn place(&self, other: &CatalogRef) -> (placement: Placement)
        ensures
            match placement {
                Placement::Before => ref_precedes(self@, other@),
                Placement::Same => self@ == other@,
                Placement::After => ref_precedes(other@, self@),
            },
    {
        match place(self.name.as_str(), other.name.as_str()) {
            Placement::Same => place(self.key.as_str(), other.key.as_str()),
            elsewhere => elsewhere,
        }
    }
}

/// Whether `a` comes strictly before `b`: by name, and under one name by key.
pub open spec fn ref_precedes(a: RefView, b: RefView) -> bool {
    text_precedes(a.name, b.name) || (a.name == b.name && text_precedes(a.key, b.key))
}

/// Whether every reference comes before all that stand behind it.
pub open spec fn refs_ascending(refs: Seq<RefView>) -> bool {
    forall|i: int, j: int|
        0 <= i < j < refs.len() ==> ref_precedes(#[trigger] refs[i], #[trigger] refs[j])
}

proof fn ref_precedes_irreflexive(a: RefView)
    ensures
        !ref_precedes(a, a),
{
    precedes_irreflexive(encode_utf8(a.name));
    precedes_irreflexive(encode_utf8(a.key));
}

proof fn ref_precedes_transitive(a: RefView, b: RefView, c: RefView)
    requires
        ref_precedes(a, b),
        ref_precedes(b, c),
    ensures
        ref_precedes(a, c),
{
    if text_precedes(a.name, b.name) && text_precedes(b.name, c.name) {
        precedes_transitive(encode_utf8(a.name), encode_utf8(b.name), encode_utf8(c.name));
    }
    if text_precedes(a.key, b.key) && text_precedes(b.key, c.key) {
        precedes_transitive(encode_utf8(a.key), encode_utf8(b.key), encode_utf8(c.key));
    }
}

/// References in ascending order are listed once each.
pub proof fn ascending_refs_distinct(refs: Seq<RefView>)
    requires
        refs_ascending(refs),
    ensures
        refs.no_duplicates(),
{
    assert forall|i: int, j: int| 0 <= i < j < refs.len() implies refs[i] != refs[j] by {
        ref_precedes_irreflexive(refs[i]);
    }
}

/// A set of references has one list in ascending order: what is listed so depends on the set
/// alone.
pub proof fn ascending_list_is_unique(a: Seq<RefView>, b: Seq<RefView>)
    requires
        refs_ascending(a),
        refs_ascending(b),
        a.to_set() == b.to_set(),
    ensures
        a == b,
    decreases a.len(),
{
    assert forall|r: RefView|
        #![trigger a.contains(r)]
        #![trigger b.contains(r)]
        a.contains(r) == b.contains(r) by {
        assert(a.to_set().contains(r) == a.contains(r));
        assert(b.to_set().contains(r) == b.contains(r));
    }
    if a.len() == 0 {
        assert(b.len() > 0 ==> a.contains(b[0]));
        assert(a =~= b);
    } else {
        assert(b.contains(a[0]));
        assert(a.contains(b[0]));
        if a[0] != b[0] {
            let i = a.index_of(b[0]);
            let j = b.index_of(a[0]);
            ref_precedes_transitive(a[0], a[i], b[j]);
            ref_precedes_irreflexive(a[0]);
        }
        ascending_refs_distinct(a);
        ascending_refs_distinct(b);
        let rest_a = a.drop_first();
        let rest_b = b.drop_first();
        assert forall|r: RefView| rest_a.contains(r) == rest_b.contains(r) by {
            if rest_a.contains(r) {
                let i = rest_a.index_of(r);
                assert(a[i + 1] == r);
                assert(b.contains(r));
                let j = b.index_of(r);
                assert(rest_b[j - 1] == r);
            }
            if rest_b.contains(r) {
                let j = rest_b.index_of(r);
                assert(b[j + 1] == r);
                assert(a.contains(r));
                let i = a.index_of(r);
                assert(rest_a[i - 1] == r);
            }
        }
        assert(rest_a.to_set() =~= rest_b.to_set());
        ascending_list_is_unique(rest_a, rest_b);
        assert(a =~= seq![a[0]] + rest_a);
        assert(b =~= seq![b[0]] + rest_b);
    }
}

/// Placing a reference behind all that come before it and in front of all that come after it
/// keeps the order and adds it to the set.
proof fn inserted_in_order(refs: Seq<RefView>, at: int, added: RefView)
    requires
        refs_ascending(refs),
        0 <= at <= refs.len(),
        forall|i: int| 0 <= i < at ==> ref_precedes(#[trigger] refs[i], added),
        forall|i: int| at <= i < refs.len() ==> ref_precedes(added, #[trigger] refs[i]),
    ensures
        refs_ascending(refs.insert(at, added)),
        refs.insert(at, added).to_set() == refs.to_set().insert(added),
{
    let more = refs.insert(at, added);
    assert forall|i: int, j: int| 0 <= i < j < more.len() implies ref_precedes(
        #[trigger] more[i],
        #[trigger] more[j],
    ) by {
        if i != at {
            assert(more[i] == refs[if i < at { i } else { i - 1 }]);
        }
        if j != at {
            assert(more[j] == refs[if j < at { j } else { j - 1 }]);
        }
    }
    assert forall|r: RefView| more.contains(r) == (r == added || refs.contains(r)) by {
        if more.contains(r) && r != added {
            let i = more.index_of(r);
            assert(refs[if i < at { i } else { i - 1 }] == r);
        }
        if refs.contains(r) {
            let i = refs.index_of(r);
            assert(more[if i < at { i } else { i + 1 }] == r);
        }
        assert(more[at] == added);
    }
    assert(more.to_set() =~= refs.to_set().insert(added));
}

/// Adding a reference at the end of a list adds it to the list's set.
pub proof fn pushed_set(seen: Seq<RefView>, next: RefView)
    ensures
        seen.push(next).to_set() == seen.to_set().insert(next),
{
    assert(seen.push(next)[seen.len() as int] == next);
    assert forall|r: RefView| seen.contains(r) implies seen.push(next).contains(r) by {
        let i = seen.index_of(r);
        assert(seen.push(next)[i] == r);
    }
    assert(seen.push(next).to_set() =~= seen.to_set().insert(next));
}

/// A set of references. Each is held once, in ascending order.
#[derive(Debug)]
pub struct RefSet {
    refs: Vec<CatalogRef>,
}

impl View for RefSet {
    type V = Set<RefView>;

    open spec fn view(&self) -> Set<RefView> {
        self.listed().to_set()
    }
}

impl RefSet {
    /// The references in the order in which the set holds them.
    pub closed spec fn listed(&self) -> Seq<RefView> {
        self.refs.deep_view()
    }

    #[verifier::type_invariant]
    spec fn sorted(self) -> bool {
        refs_ascending(self.refs.deep_view())
    }

    /// The empty set.
    pub fn new() -> (set: RefSet)
        ensures
            set.listed() == Seq::<RefView>::empty(),
            set@ == Set::<RefView>::empty(),
    {
        let refs: Vec<CatalogRef> = Vec::new();
        let set = RefSet { refs };
        proof {
            assert(set.listed() =~= Seq::<RefView>::empty());
            assert(set@ =~= Set::<RefView>::empty());
        }
        set
    }

    /// Whether the set holds no reference.
    pub fn is_empty(&self) -> (empty: bool)
        ensures
            empty == (self@ == Set::<RefView>::empty()),
            empty == (self.listed().len() == 0),
    {
        proof {
            if self.refs@.len() > 0 {
                assert(self.listed().contains(self.listed()[0]));
                assert(self@.contains(self.listed()[0]));
            } else {
                assert(self@ =~= Set::<RefView>::empty());
            }
        }
        self.refs.len() == 0
    }

    /// The references, each once, in ascending order.
    pub fn as_slice(&self) -> (refs: &[CatalogRef])
        ensures
            refs.deep_view() == self.listed(),
            refs_ascending(self.listed()),
            forall|r: RefView| #[trigger] refs.deep_view().contains(r) <==> self@.contains(r),
    {
        proof {
            use_type_invariant(self);
        }
        let refs = self.refs.as_slice();
        assert(refs.deep_view() =~= self.refs.deep_view());
        refs
    }

    /// The position of the first reference that does not come before `reference`, and whether
    /// it is `reference`.
    fn locate(&self, reference: &CatalogRef) -> (found: (usize, bool))
        ensures
            found.0 <= self.refs@.len(),
            found.1 == self@.contains(reference@),
            forall|i: int|
                0 <= i < found.0 ==> ref_precedes(#[trigger] self.listed()[i], reference@),
            !found.1 ==> forall|i: int|
                found.0 <= i < self.refs@.len() ==> ref_precedes(
                    reference@,
                    #[trigger] self.listed()[i],
                ),
    {
        proof {
            use_type_invariant(self);
            ref_precedes_irreflexive(reference@);
        }
        let ghost list = self.listed();
        let mut i: usize = 0;
        while i < self.refs.len()
            invariant
                i <= self.refs@.len(),
                list == self.listed(),
                list.len() == self.refs@.len(),
                refs_ascending(list),
                !ref_precedes(reference@, reference@),
                forall|j: int| 0 <= j < i ==> ref_precedes(#[trigger] list[j], reference@),
            decreases self.refs.len() - i,
        {
            assert(list[i as int] == self.refs@[i as int]@);
            match self.refs[i].place(reference) {
                Placement::Before => {
                    i += 1;
                },
                Placement::Same => {
                    assert(list.contains(reference@));
                    return (i, true);
                },
                Placement::After => {
                    proof {
                        assert forall|j: int| i <= j < list.len() implies ref_precedes(
                            reference@,
                            #[trigger] list[j],
                        ) by {
                            if i < j {
                                ref_precedes_transitive(reference@, list[i as int], list[j]);
                            }
                        }
                    }
                    return (i, false);
                },
            }
        }
        (i, false)
    }

    /// Whether the set holds `reference`.
    pub fn contains(&self, reference: &CatalogRef) -> (found: bool)
        ensures
            found == self@.contains(reference@),
    {
        self.locate(reference).1
    }

    /// Adds `reference`, unless the set holds it already.
    pub fn insert(&mut self, reference: CatalogRef)
        ensures
            final(self)@ == old(self)@.insert(reference@),
            refs_ascending(final(self).listed()),
    {
        let (at, found) = self.locate(&reference);
        proof {
            use_type_invariant(&*self);
        }
        if found {
            assert(self@ =~= self@.insert(reference@));
            return ;
        }
        let mut refs: Vec<CatalogRef> = Vec::new();
        std::mem::swap(&mut refs, &mut self.refs);
        let ghost before = refs.deep_view();
        let ghost added = reference@;
        refs.insert(at, reference);
        proof {
            inserted_in_order(before, at as int, added);
            assert(refs.deep_view() =~= before.insert(at as int, added));
        }
        self.refs = refs;
    }

    /// Adds every reference of `other`.
    pub fn extend(&mut self, other: &RefSet)
        ensures
            final(self)@ == old(self)@.union(other@),
            refs_ascending(final(self).listed()),
    {
        let mut i: usize = 0;
        let ghost before = self@;
        proof {
            use_type_invariant(&*self);
            assert(other.listed().take(0).to_set() =~= Set::<RefView>::empty());
            assert(before =~= before.union(Set::<RefView>::empty()));
        }
        while i < other.refs.len()
            invariant
                i <= other.refs@.len(),
                other.listed().len() == other.refs@.len(),
                self@ == before.union(other.listed().take(i as int).to_set()),
                refs_ascending(self.listed()),
            decreases other.refs.len() - i,
        {
            self.insert(other.refs[i].copy());
            proof {
                let seen = other.listed().take(i as int);
                let next = other.listed()[i as int];
                assert(next == other.refs@[i as int]@);
                assert(other.listed().take(i + 1) =~= seen.push(next));
                pushed_set(seen, next);
                assert(self@ =~= before.union(other.listed().take(i + 1).to_set()));
            }
            i += 1;
        }
        proof {
            assert(other.listed().take(i as int) =~= other.listed());
        }
    }
}

/// What a reference stands for is its name and its key.
pub proof fn references_stand_for_their_texts(reference: CatalogRef)
    ensures
        reference@.name == reference.name@,
        reference@.key == reference.key@,
        reference.deep_view() == reference@,
{
}

/// Of two references in ascending order, the first comes before the second by its name, or
/// under the same name by its key.
pub proof fn ascending_refs_stand_by_name_and_key(refs: Seq<RefView>, i: int, j: int)
    requires
        refs_ascending(refs),
        0 <= i < j < refs.len(),
    ensures
        text_precedes(refs[i].name, refs[j].name) || (refs[i].name == refs[j].name
            && text_precedes(refs[i].key, refs[j].key)),
{
}

} // verus!

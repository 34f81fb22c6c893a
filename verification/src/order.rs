//! The order in which string keys are kept: by their bytes, first difference first.

use vstd::prelude::*;
use vstd::string::*;
use vstd::utf8::*;

verus! {

/// Whether `a` comes strictly before `b`: at the first byte where the two differ `a` has the
/// smaller one, or `a` is a proper prefix of `b`.
pub open spec fn precedes(a: Seq<u8>, b: Seq<u8>) -> bool
    decreases a.len(),
{
    if b.len() == 0 {
        false
    } else if a.len() == 0 {
        true
    } else {
        a[0] < b[0] || (a[0] == b[0] && precedes(a.drop_first(), b.drop_first()))
    }
}

/// `precedes` on texts, by their UTF-8 encodings.
pub open spec fn text_precedes(a: Seq<char>, b: Seq<char>) -> bool {
    precedes(encode_utf8(a), encode_utf8(b))
}

/// Where a first text stands relative to a second one.
pub enum Placement {
    Before,
    Same,
    After,
}

/// No byte string comes before itself.
pub proof fn precedes_irreflexive(a: Seq<u8>)
    ensures
        !precedes(a, a),
    decreases a.len(),
{
    if a.len() > 0 {
        precedes_irreflexive(a.drop_first());
    }
}

/// The order is transitive.
pub proof fn precedes_transitive(a: Seq<u8>, b: Seq<u8>, c: Seq<u8>)
    requires
        precedes(a, b),
        precedes(b, c),
    ensures
        precedes(a, c),
    decreases a.len(),
{
    if a.len() > 0 && a[0] == b[0] && b[0] == c[0] {
        precedes_transitive(a.drop_first(), b.drop_first(), c.drop_first());
    }
}

/// Texts with the same encoding are the same text.
pub proof fn encoding_injective(a: Seq<char>, b: Seq<char>)
    requires
        encode_utf8(a) == encode_utf8(b),
    ensures
        a == b,
{
    encode_utf8_decode_utf8(a);
    encode_utf8_decode_utf8(b);
}

proof fn skip_one(s: Seq<u8>, i: int)
    requires
        0 <= i < s.len(),
    ensures
        s.skip(i).drop_first() == s.skip(i + 1),
        s.skip(i)[0] == s[i],
{
    assert(s.skip(i).drop_first() =~= s.skip(i + 1));
}

/// Where `a` stands relative to `b`.
pub fn place(a: &str, b: &str) -> (placement: Placement)
    ensures
        match placement {
            Placement::Before => text_precedes(a@, b@),
            Placement::Same => a@ == b@,
            Placement::After => text_precedes(b@, a@),
        },
{
    let left = a.as_bytes();
    let right = b.as_bytes();
    let mut i: usize = 0;
    proof {
        assert(left@.skip(0) =~= left@);
        assert(right@.skip(0) =~= right@);
    }
    while i < left.len() && i < right.len()
        invariant
            i <= left.len(),
            i <= right.len(),
            left@ == encode_utf8(a@),
            right@ == encode_utf8(b@),
            left@.take(i as int) == right@.take(i as int),
            precedes(left@, right@) == precedes(left@.skip(i as int), right@.skip(i as int)),
            precedes(right@, left@) == precedes(right@.skip(i as int), left@.skip(i as int)),
        decreases left.len() - i,
    {
        proof {
            skip_one(left@, i as int);
            skip_one(right@, i as int);
        }
        if left[i] < right[i] {
            return Placement::Before;
        }
        if right[i] < left[i] {
            return Placement::After;
        }
        proof {
            assert(left@.take(i + 1) =~= left@.take(i as int).push(left@[i as int]));
            assert(right@.take(i + 1) =~= right@.take(i as int).push(right@[i as int]));
        }
        i += 1;
    }
    if i < right.len() {
        Placement::Before
    } else if i < left.len() {
        Placement::After
    } else {
        proof {
            assert(left@.take(i as int) =~= left@);
            assert(right@.take(i as int) =~= right@);
            encoding_injective(a@, b@);
        }
        Placement::Same
    }
}

/// The first difference decides: of two byte strings that agree up to `at` and no further, the
/// one comes before the other that ends there, or that has the smaller byte there.
pub proof fn first_difference_decides(a: Seq<u8>, b: Seq<u8>, at: int)
    requires
        0 <= at <= a.len(),
        at <= b.len(),
        forall|i: int| 0 <= i < at ==> a[i] == b[i],
        at < a.len() && at < b.len() ==> a[at] != b[at],
    ensures
        precedes(a, b) <==> at < b.len() && (at == a.len() || a[at] < b[at]),
    decreases a.len(),
{
    if at > 0 {
        first_difference_decides(a.drop_first(), b.drop_first(), at - 1);
    }
}

/// Texts stand in the order of their UTF-8 encodings: the first byte that differs decides.
pub proof fn texts_stand_in_the_order_of_their_bytes(a: Seq<char>, b: Seq<char>, at: int)
    requires
        0 <= at <= encode_utf8(a).len(),
        at <= encode_utf8(b).len(),
        forall|i: int| 0 <= i < at ==> encode_utf8(a)[i] == encode_utf8(b)[i],
        at < encode_utf8(a).len() && at < encode_utf8(b).len() ==> encode_utf8(a)[at]
            != encode_utf8(b)[at],
    ensures
        text_precedes(a, b) <==> at < encode_utf8(b).len() && (at == encode_utf8(a).len()
            || encode_utf8(a)[at] < encode_utf8(b)[at]),
{
    first_difference_decides(encode_utf8(a), encode_utf8(b), at);
}

} // verus!

//! The total order of the style sheet: bucket, then variant weight, then
//! the token itself.

use vstd::prelude::*;
use vstd::string::*;

verus! {

/// The lexicographic order of texts by their characters.
pub open spec fn text_less(a: Seq<char>, b: Seq<char>) -> bool
    decreases a.len(),
{
    if b.len() == 0 {
        false
    } else if a.len() == 0 {
        true
    } else if a[0] != b[0] {
        a[0] < b[0]
    } else {
        text_less(a.drop_first(), b.drop_first())
    }
}

/// No text is less than itself.
pub proof fn lemma_text_irreflexive(a: Seq<char>)
    ensures
        !text_less(a, a),
    decreases a.len(),
{
    if a.len() > 0 {
        lemma_text_irreflexive(a.drop_first());
    }
}

/// The order of texts is transitive.
pub proof fn lemma_text_transitive(a: Seq<char>, b: Seq<char>, c: Seq<char>)
    requires
        text_less(a, b),
        text_less(b, c),
    ensures
        text_less(a, c),
    decreases a.len(),
{
    if a.len() > 0 && b.len() > 0 && c.len() > 0 {
        if a[0] == b[0] && b[0] == c[0] {
            lemma_text_transitive(a.drop_first(), b.drop_first(), c.drop_first());
        }
    }
}

/// Of two different texts one is less than the other.
pub proof fn lemma_text_total(a: Seq<char>, b: Seq<char>)
    ensures
        text_less(a, b) || text_less(b, a) || a == b,
    decreases a.len(),
{
    if a.len() > 0 && b.len() > 0 {
        if a[0] == b[0] {
            lemma_text_total(a.drop_first(), b.drop_first());
            if a.drop_first() == b.drop_first() {
                assert(a =~= seq![a[0]] + a.drop_first());
                assert(b =~= seq![b[0]] + b.drop_first());
            }
        }
    } else if a.len() == 0 && b.len() == 0 {
        assert(a =~= b);
    }
}

/// Whether `a` comes before `b` in the lexicographic order.
pub fn text_before(a: &Vec<char>, b: &Vec<char>) -> (r: bool)
    ensures
        r == text_less(a@, b@),
{
    let mut i: usize = 0;
    proof {
        assert(a@.skip(0) =~= a@);
        assert(b@.skip(0) =~= b@);
    }
    loop
        invariant
            i <= a@.len(),
            i <= b@.len(),
            text_less(a@, b@) == text_less(a@.skip(i as int), b@.skip(i as int)),
        decreases a@.len() - i,
    {
        if i >= b.len() {
            return false;
        }
        if i >= a.len() {
            return true;
        }
        proof {
            assert(a@.skip(i as int)[0] == a@[i as int]);
            assert(b@.skip(i as int)[0] == b@[i as int]);
            assert(a@.skip(i as int).drop_first() =~= a@.skip(i + 1));
            assert(b@.skip(i as int).drop_first() =~= b@.skip(i + 1));
        }
        if a[i] != b[i] {
            return a[i] < b[i];
        }
        i += 1;
    }
}

/// What orders a rule in the style sheet.
pub ghost struct ItemKey {
    /// The rank of the bucket.
    pub rank: nat,
    /// The variants as a set of bits.
    pub weight: nat,
    /// The token.
    pub name: Seq<char>,
}

/// The order of the style sheet: by bucket, then by weight, then by token.
pub open spec fn key_less(a: ItemKey, b: ItemKey) -> bool {
    if a.rank != b.rank {
        a.rank < b.rank
    } else if a.weight != b.weight {
        a.weight < b.weight
    } else {
        text_less(a.name, b.name)
    }
}

/// No key is less than itself.
pub proof fn lemma_key_irreflexive(a: ItemKey)
    ensures
        !key_less(a, a),
{
    lemma_text_irreflexive(a.name);
}

/// The order of keys is transitive.
pub proof fn lemma_key_transitive(a: ItemKey, b: ItemKey, c: ItemKey)
    requires
        key_less(a, b),
        key_less(b, c),
    ensures
        key_less(a, c),
{
    if a.rank == b.rank && b.rank == c.rank && a.weight == b.weight && b.weight == c.weight {
        lemma_text_transitive(a.name, b.name, c.name);
    }
}

/// The order of keys is total: of two keys with different tokens one is
/// less than the other.
pub proof fn lemma_key_total(a: ItemKey, b: ItemKey)
    ensures
        key_less(a, b) || key_less(b, a) || a.name == b.name,
{
    lemma_text_total(a.name, b.name);
}

/// Each key is less than the next.
pub open spec fn ascending(keys: Seq<ItemKey>) -> bool {
    forall|i: int, j: int| 0 <= i < j < keys.len() ==> key_less(#[trigger] keys[i], #[trigger] keys[j])
}

/// Two ascending sequences with the same keys are the same sequence.
pub proof fn lemma_ascending_unique(a: Seq<ItemKey>, b: Seq<ItemKey>)
    requires
        ascending(a),
        ascending(b),
        forall|i: int| 0 <= i < a.len() ==> b.contains(#[trigger] a[i]),
        forall|i: int| 0 <= i < b.len() ==> a.contains(#[trigger] b[i]),
    ensures
        a == b,
    decreases a.len(),
{
    if a.len() == 0 {
        if b.len() > 0 {
            assert(a.contains(b[0]));
        }
        assert(a =~= b);
    } else if b.len() == 0 {
        assert(b.contains(a[0]));
    } else {
        // the least keys are the same
        assert(b.contains(a[0]));
        assert(a.contains(b[0]));
        let i = choose|i: int| 0 <= i < b.len() && b[i] == a[0];
        let j = choose|j: int| 0 <= j < a.len() && a[j] == b[0];
        if i > 0 {
            assert(key_less(b[0], b[i]));
            if j > 0 {
                assert(key_less(a[0], a[j]));
                lemma_key_transitive(a[0], b[0], a[0]);
                lemma_key_irreflexive(a[0]);
            }
        }
        assert(a[0] == b[0]);
        let ra = a.drop_first();
        let rb = b.drop_first();
        assert forall|x: int, y: int| 0 <= x < y < ra.len() implies key_less(
            #[trigger] ra[x],
            #[trigger] ra[y],
        ) by {
            assert(key_less(a[x + 1], a[y + 1]));
        }
        assert forall|x: int, y: int| 0 <= x < y < rb.len() implies key_less(
            #[trigger] rb[x],
            #[trigger] rb[y],
        ) by {
            assert(key_less(b[x + 1], b[y + 1]));
        }
        assert forall|x: int| 0 <= x < ra.len() implies rb.contains(#[trigger] ra[x]) by {
            assert(b.contains(a[x + 1]));
            let y = choose|y: int| 0 <= y < b.len() && b[y] == a[x + 1];
            assert(key_less(a[0], a[x + 1]));
            if y == 0 {
                lemma_key_irreflexive(a[0]);
            }
            assert(rb[y - 1] == ra[x]);
        }
        assert forall|x: int| 0 <= x < rb.len() implies ra.contains(#[trigger] rb[x]) by {
            assert(a.contains(b[x + 1]));
            let y = choose|y: int| 0 <= y < a.len() && a[y] == b[x + 1];
            assert(key_less(b[0], b[x + 1]));
            if y == 0 {
                lemma_key_irreflexive(b[0]);
            }
            assert(ra[y - 1] == rb[x]);
        }
        lemma_ascending_unique(ra, rb);
        assert(a =~= seq![a[0]] + ra);
        assert(b =~= seq![b[0]] + rb);
    }
}

} // verus!

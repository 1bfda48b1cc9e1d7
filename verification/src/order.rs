//! The order in which a store keeps its keys: byte by byte over the UTF-8
//! form of the key, a proper prefix before its extensions.

use vstd::prelude::*;
use vstd::utf8::*;

verus! {

/// `a` and `b` agree on their first `k` bytes, and at position `k` either `a`
/// has ended while `b` goes on, or `a` holds the smaller byte.
pub open spec fn parts_at(a: Seq<u8>, b: Seq<u8>, k: int) -> bool {
    &&& 0 <= k <= a.len()
    &&& k <= b.len()
    &&& forall|i: int| 0 <= i < k ==> a[i] == b[i]
    &&& if k == a.len() {
        k < b.len()
    } else {
        k < b.len() && a[k] < b[k]
    }
}

/// Lexicographic "comes before" on byte strings.
pub open spec fn bytes_lt(a: Seq<u8>, b: Seq<u8>) -> bool {
    exists|k: int| parts_at(a, b, k)
}

/// "Comes before" on keys: the order of their UTF-8 bytes.
pub open spec fn key_lt(a: Seq<char>, b: Seq<char>) -> bool {
    bytes_lt(encode_utf8(a), encode_utf8(b))
}

/// Every key of `keys` comes before all later ones.
pub open spec fn ascending(keys: Seq<Seq<char>>) -> bool {
    forall|i: int, j: int| 0 <= i < j < keys.len() ==> key_lt(keys[i], keys[j])
}

/// No byte string comes before itself.
pub proof fn lemma_bytes_lt_irreflexive(a: Seq<u8>)
    ensures
        !bytes_lt(a, a),
{
}

/// "Comes before" on byte strings is transitive.
pub proof fn lemma_bytes_lt_transitive(a: Seq<u8>, b: Seq<u8>, c: Seq<u8>)
    requires
        bytes_lt(a, b),
        bytes_lt(b, c),
    ensures
        bytes_lt(a, c),
{
    let i = choose|k: int| parts_at(a, b, k);
    let j = choose|k: int| parts_at(b, c, k);
    let k = if i <= j { i } else { j };
    assert(parts_at(a, c, k));
}

/// Of two byte strings at most one comes before the other.
pub proof fn lemma_bytes_lt_asymmetric(a: Seq<u8>, b: Seq<u8>)
    requires
        bytes_lt(a, b),
    ensures
        !bytes_lt(b, a),
{
    if bytes_lt(b, a) {
        lemma_bytes_lt_transitive(a, b, a);
        lemma_bytes_lt_irreflexive(a);
    }
}

/// Keys with the same UTF-8 bytes are the same key.
pub proof fn lemma_utf8_injective(a: Seq<char>, b: Seq<char>)
    requires
        encode_utf8(a) == encode_utf8(b),
    ensures
        a == b,
{
    encode_utf8_decode_utf8(a);
    encode_utf8_decode_utf8(b);
}

/// No key comes before itself.
pub proof fn lemma_key_lt_irreflexive(a: Seq<char>)
    ensures
        !key_lt(a, a),
{
    lemma_bytes_lt_irreflexive(encode_utf8(a));
}

/// "Comes before" on keys is transitive.
pub proof fn lemma_key_lt_transitive(a: Seq<char>, b: Seq<char>, c: Seq<char>)
    requires
        key_lt(a, b),
        key_lt(b, c),
    ensures
        key_lt(a, c),
{
    lemma_bytes_lt_transitive(encode_utf8(a), encode_utf8(b), encode_utf8(c));
}

/// Of two keys exactly one holds: the first comes before the second, they are
/// equal, or the second comes before the first.
pub proof fn lemma_key_lt_trichotomy(a: Seq<char>, b: Seq<char>)
    ensures
        key_lt(a, b) || a == b || key_lt(b, a),
        !(key_lt(a, b) && a == b),
        !(key_lt(b, a) && a == b),
        !(key_lt(a, b) && key_lt(b, a)),
{
    let x = encode_utf8(a);
    let y = encode_utf8(b);
    lemma_bytes_lt_irreflexive(x);
    if bytes_lt(x, y) {
        lemma_bytes_lt_asymmetric(x, y);
    }
    if !bytes_lt(x, y) && !bytes_lt(y, x) {
        lemma_common_prefix(x, y, 0);
        assert(x =~= y);
        lemma_utf8_injective(a, b);
    }
}

/// Two byte strings of which neither comes before the other agree from
/// position `k` on, once they agree before it.
proof fn lemma_common_prefix(x: Seq<u8>, y: Seq<u8>, k: int)
    requires
        !bytes_lt(x, y),
        !bytes_lt(y, x),
        0 <= k <= x.len(),
        k <= y.len(),
        forall|i: int| 0 <= i < k ==> x[i] == y[i],
    ensures
        x.len() == y.len(),
        forall|i: int| 0 <= i < x.len() ==> x[i] == y[i],
    decreases x.len() - k,
{
    assert(!parts_at(x, y, k));
    assert(!parts_at(y, x, k));
    if k < x.len() {
        lemma_common_prefix(x, y, k + 1);
    }
}

/// How one key stands to another in the order of the store.
#[derive(Clone, Copy, Debug, PartialEq, Eq, Structural)]
pub enum KeyOrder {
    /// The first key comes before the second.
    Before,
    /// Both are the same key.
    Same,
    /// The first key comes after the second.
    After,
}

/// Compares two keys byte by byte.
pub fn compare_keys(a: &str, b: &str) -> (order: KeyOrder)
    ensures
        order == KeyOrder::Before <==> key_lt(a@, b@),
        order == KeyOrder::Same <==> a@ == b@,
        order == KeyOrder::After <==> key_lt(b@, a@),
{
    let x = a.as_bytes();
    let y = b.as_bytes();
    proof {
        lemma_key_lt_trichotomy(a@, b@);
    }
    let mut i: usize = 0;
    while i < x.len() && i < y.len()
        invariant
            i <= x@.len(),
            i <= y@.len(),
            x@ == encode_utf8(a@),
            y@ == encode_utf8(b@),
            forall|k: int| 0 <= k < i ==> x@[k] == y@[k],
        decreases x@.len() - i,
    {
        if x[i] < y[i] {
            assert(parts_at(x@, y@, i as int));
            return KeyOrder::Before;
        }
        if x[i] > y[i] {
            assert(parts_at(y@, x@, i as int));
            return KeyOrder::After;
        }
        i += 1;
    }
    if x.len() < y.len() {
        assert(parts_at(x@, y@, i as int));
        KeyOrder::Before
    } else if x.len() > y.len() {
        assert(parts_at(y@, x@, i as int));
        KeyOrder::After
    } else {
        assert(x@ =~= y@);
        proof {
            lemma_utf8_injective(a@, b@);
        }
        KeyOrder::Same
    }
}

} // verus!

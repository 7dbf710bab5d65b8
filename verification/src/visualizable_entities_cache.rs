//! Cache for the per-view determination of visualizable entities.
//!
//! Deciding which entities a view can visualize is expensive and used to be
//! recomputed every frame for every view. This cache keys the stored answer
//! by everything the determination depends on: the recording's generation,
//! the view's origin and class, and a fingerprint of the candidate entities
//! per visualizer. The fingerprint is a 64-bit FNV-1a hash over a canonical
//! ordering, so it does not depend on the order in which visualizers or
//! entities were added.
//!
//! The expensive determination itself is an outside collaborator: on a
//! cache miss the embedder computes the answer and stores it here.

use vstd::prelude::*;
use vstd::string::StringSliceAdditionalSpecFns;

verus! {

/// The UTF-8 bytes of a string's characters; the canonical form that the
/// ordering and the fingerprint work over.
pub open spec fn str_bytes(chars: Seq<char>) -> Seq<u8> {
    vstd::utf8::encode_utf8(chars)
}

/// FNV-1a 64-bit offset basis.
pub const FNV_OFFSET_BASIS: u64 = 14695981039346656037;

/// FNV-1a 64-bit prime.
pub const FNV_PRIME: u64 = 1099511628211;

/// One FNV-1a step: fold one byte into the running hash.
pub open spec fn fnv_step(h: u64, byte: u8) -> u64 {
    ((((h ^ (byte as u64)) as int) * (FNV_PRIME as int)) % 0x10000000000000000) as u64
}

/// Folds a byte sequence into the running hash, first byte first.
pub open spec fn spec_fnv_bytes(h: u64, bytes: Seq<u8>) -> u64
    decreases bytes.len(),
{
    if bytes.len() == 0 {
        h
    } else {
        spec_fnv_bytes(fnv_step(h, bytes.first()), bytes.drop_first())
    }
}

/// Folds a 64-bit value into the running hash as its eight little-endian
/// bytes; used for length prefixes, which keep adjacent fields apart.
pub open spec fn spec_fnv_u64(h: u64, value: u64) -> u64 {
    spec_fnv_bytes(h, vstd::bytes::spec_u64_to_le_bytes(value))
}

/// Folds one length-prefixed byte string into the running hash.
pub open spec fn spec_fnv_field(h: u64, bytes: Seq<u8>) -> u64 {
    spec_fnv_bytes(spec_fnv_u64(h, bytes.len() as u64), bytes)
}

/// Is `a` at or before `b` in byte-lexicographic order?
pub open spec fn bytes_le(a: Seq<u8>, b: Seq<u8>) -> bool
    decreases a.len(),
{
    if a.len() == 0 {
        true
    } else if b.len() == 0 {
        false
    } else if a.first() < b.first() {
        true
    } else if a.first() > b.first() {
        false
    } else {
        bytes_le(a.drop_first(), b.drop_first())
    }
}

/// Is `a` strictly before `b` in byte-lexicographic order?
pub open spec fn bytes_lt(a: Seq<u8>, b: Seq<u8>) -> bool {
    bytes_le(a, b) && a != b
}

proof fn lemma_bytes_le_step(a: Seq<u8>, b: Seq<u8>, i: int)
    requires
        0 <= i < a.len(),
        i < b.len(),
    ensures
        bytes_le(a.skip(i), b.skip(i)) == if a[i] < b[i] {
            true
        } else if a[i] > b[i] {
            false
        } else {
            bytes_le(a.skip(i + 1), b.skip(i + 1))
        },
{
    assert(a.skip(i).first() == a[i]);
    assert(b.skip(i).first() == b[i]);
    assert(a.skip(i).drop_first() =~= a.skip(i + 1));
    assert(b.skip(i).drop_first() =~= b.skip(i + 1));
}

proof fn lemma_bytes_le_same_prefix(a: Seq<u8>, b: Seq<u8>, i: int)
    requires
        0 <= i <= a.len(),
        i <= b.len(),
        forall|k: int| 0 <= k < i ==> a[k] == b[k],
    ensures
        bytes_le(a, b) == bytes_le(a.skip(i), b.skip(i)),
    decreases i,
{
    if i > 0 {
        lemma_bytes_le_same_prefix(a, b, i - 1);
        lemma_bytes_le_step(a, b, i - 1);
    } else {
        assert(a.skip(0) =~= a);
        assert(b.skip(0) =~= b);
    }
}

/// Byte-lexicographic order is total, and mutual order means equality.
proof fn lemma_bytes_le_total(a: Seq<u8>, b: Seq<u8>)
    ensures
        bytes_le(a, b) || bytes_le(b, a),
        bytes_le(a, b) && bytes_le(b, a) ==> a == b,
    decreases a.len(),
{
    if a.len() == 0 || b.len() == 0 {
        if a.len() == 0 && b.len() == 0 {
            assert(a =~= b);
        }
    } else {
        lemma_bytes_le_total(a.drop_first(), b.drop_first());
        if bytes_le(a, b) && bytes_le(b, a) {
            assert(a.first() == b.first());
            assert(bytes_le(a.drop_first(), b.drop_first()));
            assert(bytes_le(b.drop_first(), a.drop_first()));
            assert(a.drop_first() == b.drop_first());
            assert forall|i: int| 0 <= i < a.len() implies a[i] == b[i] by {
                if i > 0 {
                    assert(a.drop_first()[i - 1] == a[i]);
                    assert(b.drop_first()[i - 1] == b[i]);
                }
            }
            assert(a =~= b);
        }
    }
}

proof fn lemma_bytes_le_transitive(a: Seq<u8>, b: Seq<u8>, c: Seq<u8>)
    requires
        bytes_le(a, b),
        bytes_le(b, c),
    ensures
        bytes_le(a, c),
    decreases a.len(),
{
    if a.len() == 0 {
    } else if b.len() == 0 {
    } else if c.len() == 0 {
    } else {
        if a.first() == b.first() && b.first() == c.first() {
            lemma_bytes_le_transitive(a.drop_first(), b.drop_first(), c.drop_first());
        }
    }
}

/// Strict byte order is transitive.
proof fn lemma_bytes_lt_transitive_all()
    ensures
        forall|a: Seq<u8>, b: Seq<u8>, c: Seq<u8>|
            #![trigger bytes_lt(a, b), bytes_lt(b, c)]
            bytes_lt(a, b) && bytes_lt(b, c) ==> bytes_lt(a, c),
{
    assert forall|a: Seq<u8>, b: Seq<u8>, c: Seq<u8>|
        bytes_lt(a, b) && bytes_lt(b, c) implies bytes_lt(a, c) by {
        lemma_bytes_le_transitive(a, b, c);
        lemma_bytes_le_total(a, c);
        if a == c {
            lemma_bytes_le_total(a, b);
        }
    }
}

/// Byte-lexicographic comparison of two strings.
fn str_le(a: &str, b: &str) -> (r: bool)
    ensures
        r == bytes_le(str_bytes(a@), str_bytes(b@)),
{
    let ab = a.as_bytes();
    let bb = b.as_bytes();
    let mut i: usize = 0;
    loop
        invariant
            i <= ab@.len(),
            i <= bb@.len(),
            ab@ == str_bytes(a@),
            bb@ == str_bytes(b@),
            forall|k: int| 0 <= k < i ==> ab@[k] == bb@[k],
        decreases ab@.len() - i,
    {
        if i >= ab.len() {
            proof {
                lemma_bytes_le_same_prefix(ab@, bb@, i as int);
            }
            return true;
        }
        if i >= bb.len() {
            proof {
                lemma_bytes_le_same_prefix(ab@, bb@, i as int);
            }
            return false;
        }
        let x = ab[i];
        let y = bb[i];
        if x < y || x > y {
            proof {
                lemma_bytes_le_same_prefix(ab@, bb@, i as int);
                lemma_bytes_le_step(ab@, bb@, i as int);
            }
            return x < y;
        }
        i = i + 1;
    }
}

/// Exact string equality.
fn str_eq(a: &String, b: &String) -> (r: bool)
    ensures
        r == (a@ == b@),
{
    a.eq(b)
}

/// Strict byte-lexicographic comparison of two strings.
fn str_lt(a: &String, b: &String) -> (r: bool)
    ensures
        r == bytes_lt(str_bytes(a@), str_bytes(b@)),
{
    if a.eq(b) {
        return false;
    }
    proof {
        lemma_encode_utf8_injective(a@, b@);
    }
    str_le(a.as_str(), b.as_str())
}

/// The number of leading entries strictly below `x` in byte order.
fn lower_bound(v: &Vec<String>, x: &String) -> (k: usize)
    ensures
        k <= v@.len(),
        forall|i: int| 0 <= i < k ==> bytes_lt(str_bytes(v@[i]@), str_bytes(x@)),
        k < v@.len() ==> !bytes_lt(str_bytes(v@[k as int]@), str_bytes(x@)),
{
    let n = v.len();
    let mut k: usize = 0;
    while k < n
        invariant
            k <= n,
            n == v@.len(),
            forall|i: int| 0 <= i < k ==> bytes_lt(str_bytes(v@[i]@), str_bytes(x@)),
        decreases n - k,
    {
        let below = str_lt(&v[k], x);
        if !below {
            return k;
        }
        k = k + 1;
    }
    k
}

/// The number of leading entries whose key is strictly below `x` in byte
/// order.
fn lower_bound_items(
    v: &Vec<(String, MaybeVisualizableEntities)>,
    x: &String,
) -> (k: usize)
    ensures
        k <= v@.len(),
        forall|i: int| 0 <= i < k ==> bytes_lt(str_bytes(v@[i].0@), str_bytes(x@)),
        k < v@.len() ==> !bytes_lt(str_bytes(v@[k as int].0@), str_bytes(x@)),
{
    let n = v.len();
    let mut k: usize = 0;
    while k < n
        invariant
            k <= n,
            n == v@.len(),
            forall|i: int| 0 <= i < k ==> bytes_lt(str_bytes(v@[i].0@), str_bytes(x@)),
        decreases n - k,
    {
        let below = str_lt(&v[k].0, x);
        if !below {
            return k;
        }
        k = k + 1;
    }
    k
}

/// Folds a byte slice into a running FNV-1a hash.
fn fnv_bytes(h: u64, bytes: &[u8]) -> (r: u64)
    ensures
        r == spec_fnv_bytes(h, bytes@),
{
    let n = bytes.len();
    let mut acc = h;
    proof {
        assert(bytes@.skip(0) =~= bytes@);
    }
    let mut i: usize = 0;
    while i < n
        invariant
            i <= n,
            n == bytes@.len(),
            spec_fnv_bytes(h, bytes@) == spec_fnv_bytes(acc, bytes@.skip(i as int)),
        decreases n - i,
    {
        proof {
            assert(bytes@.skip(i as int).first() == bytes@[i as int]);
            assert(bytes@.skip(i as int).drop_first() =~= bytes@.skip(i as int + 1));
        }
        acc = (acc ^ (bytes[i] as u64)).wrapping_mul(FNV_PRIME);
        i = i + 1;
    }
    proof {
        assert(bytes@.skip(n as int) =~= Seq::<u8>::empty());
    }
    acc
}

/// Folds a 64-bit value into a running FNV-1a hash.
fn fnv_u64(h: u64, value: u64) -> (r: u64)
    ensures
        r == spec_fnv_u64(h, value),
{
    let bytes = vstd::bytes::u64_to_le_bytes(value);
    fnv_bytes(h, bytes.as_slice())
}

/// Folds one length-prefixed string into a running FNV-1a hash.
fn fnv_str(h: u64, s: &str) -> (r: u64)
    ensures
        r == spec_fnv_field(h, str_bytes(s@)),
{
    let bytes = s.as_bytes();
    let with_len = fnv_u64(h, bytes.len() as u64);
    fnv_bytes(with_len, bytes)
}

/// The candidate entities of one visualizer, kept in strictly increasing
/// byte-lexicographic order so that every walk over them is canonical.
pub struct MaybeVisualizableEntities {
    /// The entity paths, strictly sorted; maintained by `insert`.
    pub entities: Vec<String>,
}

impl MaybeVisualizableEntities {
    /// The stored order is strictly increasing: sorted, with no duplicate.
    pub open spec fn wf(&self) -> bool {
        forall|i: int, j: int|
            #![trigger self.entities@[i], self.entities@[j]]
            0 <= i < j < self.entities@.len() ==> bytes_lt(
                str_bytes(self.entities@[i]@),
                str_bytes(self.entities@[j]@),
            )
    }

    /// Does the set hold an entity with these bytes?
    pub open spec fn spec_contains(&self, bytes: Seq<u8>) -> bool {
        exists|i: int| 0 <= i < self.entities@.len() && str_bytes(self.entities@[i]@) == bytes
    }

    /// An empty set.
    pub fn new() -> (r: Self)
        ensures
            r.wf(),
            r.entities@.len() == 0,
    {
        MaybeVisualizableEntities { entities: Vec::new() }
    }

    /// Inserts an entity path, keeping the strict order; inserting a path
    /// that is already present changes nothing.
    pub fn insert(&mut self, entity: String)
        requires
            old(self).wf(),
        ensures
            final(self).wf(),
            forall|b: Seq<u8>|
                final(self).spec_contains(b) <==> (old(self).spec_contains(b) || b == str_bytes(
                    entity@,
                )),
    {
        let ghost xb = str_bytes(entity@);
        let k = lower_bound(&self.entities, &entity);
        if k < self.entities.len() && str_eq(&self.entities[k], &entity) {
            // Already present: nothing changes.
            proof {
                assert(str_bytes(self.entities@[k as int]@) == xb);
                assert(self.spec_contains(xb));
            }
            return ;
        }
        // Position found: everything before `k` is strictly below the new
        // entity, and the element at `k`, if any, is strictly above it.
        proof {
            if (k as int) < self.entities@.len() {
                assert(self.entities@[k as int]@ != entity@);
                lemma_encode_utf8_injective(self.entities@[k as int]@, entity@);
                lemma_bytes_le_total(str_bytes(self.entities@[k as int]@), xb);
            }
        }
        let ghost pre = *self;
        self.entities.insert(k, entity);
        proof {
            lemma_insert_keeps_order(pre, *self, k as int, xb);
        }
    }
}

/// UTF-8 encoding is injective: different character sequences have
/// different bytes.
proof fn lemma_encode_utf8_injective(a: Seq<char>, b: Seq<char>)
    requires
        a != b,
    ensures
        str_bytes(a) != str_bytes(b),
{
    broadcast use vstd::utf8::encode_utf8_decode_utf8;

    if str_bytes(a) == str_bytes(b) {
        assert(vstd::utf8::decode_utf8(str_bytes(a)) == a);
        assert(vstd::utf8::decode_utf8(str_bytes(b)) == b);
    }
}

proof fn lemma_insert_keeps_order(
    pre: MaybeVisualizableEntities,
    post: MaybeVisualizableEntities,
    k: int,
    xb: Seq<u8>,
)
    requires
        pre.wf(),
        0 <= k <= pre.entities@.len(),
        post.entities@ == pre.entities@.insert(k, post.entities@[k]),
        post.entities@.len() == pre.entities@.len() + 1,
        str_bytes(post.entities@[k]@) == xb,
        forall|i: int|
            #![trigger pre.entities@[i]]
            0 <= i < k ==> bytes_lt(str_bytes(pre.entities@[i]@), xb),
        k < pre.entities@.len() ==> bytes_lt(xb, str_bytes(pre.entities@[k]@)),
    ensures
        post.wf(),
        forall|b: Seq<u8>| post.spec_contains(b) <==> (pre.spec_contains(b) || b == xb),
{
    lemma_bytes_lt_transitive_all();
    assert forall|i: int|
        0 <= i < k implies post.entities@[i] == pre.entities@[i] by {}
    assert forall|i: int|
        k < i < post.entities@.len() implies post.entities@[i] == pre.entities@[i - 1] by {}
    assert forall|i: int, j: int|
        0 <= i < j < post.entities@.len() implies bytes_lt(
        str_bytes(post.entities@[i]@),
        str_bytes(post.entities@[j]@),
    ) by {
        if j < k {
            assert(bytes_lt(str_bytes(pre.entities@[i]@), str_bytes(pre.entities@[j]@)));
        } else if j == k {
            assert(bytes_lt(str_bytes(pre.entities@[i]@), xb));
        } else if i < k {
            if i == j - 1 {
                assert(bytes_lt(str_bytes(pre.entities@[i]@), xb));
                assert(bytes_lt(xb, str_bytes(pre.entities@[j - 1]@)));
            } else {
                assert(bytes_lt(str_bytes(pre.entities@[i]@), str_bytes(pre.entities@[j - 1]@)));
            }
        } else if i == k {
            assert(bytes_lt(xb, str_bytes(pre.entities@[k]@)));
            if k < j - 1 {
                assert(bytes_lt(str_bytes(pre.entities@[k]@), str_bytes(pre.entities@[j - 1]@)));
            }
        } else {
            assert(bytes_lt(str_bytes(pre.entities@[i - 1]@), str_bytes(pre.entities@[j - 1]@)));
        }
    }
    assert forall|b: Seq<u8>| post.spec_contains(b) <==> (pre.spec_contains(b) || b == xb) by {
        if post.spec_contains(b) {
            let i = choose|i: int|
                0 <= i < post.entities@.len() && str_bytes(post.entities@[i]@) == b;
            if i < k {
                assert(str_bytes(pre.entities@[i]@) == b);
            } else if i > k {
                assert(str_bytes(pre.entities@[i - 1]@) == b);
            }
        }
        if pre.spec_contains(b) {
            let i = choose|i: int|
                0 <= i < pre.entities@.len() && str_bytes(pre.entities@[i]@) == b;
            if i < k {
                assert(str_bytes(post.entities@[i]@) == b);
            } else {
                assert(str_bytes(post.entities@[i + 1]@) == b);
            }
        }
        if b == xb {
            assert(str_bytes(post.entities@[k]@) == b);
        }
    }
}

/// A strictly increasing sequence of strings, compared by their bytes.
pub open spec fn strictly_sorted(s: Seq<String>) -> bool {
    forall|i: int, j: int|
        #![trigger s[i], s[j]]
        0 <= i < j < s.len() ==> bytes_lt(str_bytes(s[i]@), str_bytes(s[j]@))
}

/// Does the sequence hold a string with these bytes?
pub open spec fn contains_bytes(s: Seq<String>, bytes: Seq<u8>) -> bool {
    exists|i: int| 0 <= i < s.len() && str_bytes((#[trigger] s[i])@) == bytes
}

/// A strictly sorted sequence is determined by which byte strings it
/// holds: two of them with the same members have the same bytes at every
/// position. This is why every walk over the canonical order — the
/// fingerprint in particular — is independent of the order in which the
/// members were inserted.
pub proof fn lemma_sorted_strings_canonical(a: Seq<String>, b: Seq<String>)
    requires
        strictly_sorted(a),
        strictly_sorted(b),
        forall|bytes: Seq<u8>| contains_bytes(a, bytes) <==> contains_bytes(b, bytes),
    ensures
        a.len() == b.len(),
        forall|i: int| 0 <= i < a.len() ==> str_bytes((#[trigger] a[i])@) == str_bytes(b[i]@),
    decreases a.len(),
{
    if a.len() == 0 {
        if b.len() > 0 {
            assert(contains_bytes(b, str_bytes(b[0]@)));
            assert(contains_bytes(a, str_bytes(b[0]@)));
        }
    } else if b.len() == 0 {
        assert(contains_bytes(a, str_bytes(a[0]@)));
        assert(contains_bytes(b, str_bytes(a[0]@)));
    } else {
        // The heads carry the same bytes: each head is its sequence's
        // least member, and the member sets agree.
        assert(contains_bytes(a, str_bytes(a[0]@)));
        assert(contains_bytes(b, str_bytes(a[0]@)));
        let j = choose|j: int| 0 <= j < b.len() && str_bytes((#[trigger] b[j])@) == str_bytes(a[0]@);
        if j > 0 {
            assert(bytes_lt(str_bytes(b[0]@), str_bytes(a[0]@)));
            assert(contains_bytes(b, str_bytes(b[0]@)));
            assert(contains_bytes(a, str_bytes(b[0]@)));
            let i = choose|i: int|
                0 <= i < a.len() && str_bytes((#[trigger] a[i])@) == str_bytes(b[0]@);
            if i > 0 {
                assert(bytes_lt(str_bytes(a[0]@), str_bytes(a[i]@)));
                lemma_bytes_lt_transitive_all();
                assert(bytes_lt(str_bytes(a[0]@), str_bytes(a[0]@)));
            }
        }
        assert(str_bytes(b[0]@) == str_bytes(a[0]@));

        // The tails hold the same members: exactly the heads' bytes left.
        let at = a.drop_first();
        let bt = b.drop_first();
        assert forall|i: int| 0 <= i < at.len() implies #[trigger] at[i] == a[i + 1] by {}
        assert forall|i: int| 0 <= i < bt.len() implies #[trigger] bt[i] == b[i + 1] by {}
        assert forall|bytes: Seq<u8>|
            contains_bytes(at, bytes) <==> contains_bytes(bt, bytes) by {
            if contains_bytes(at, bytes) {
                let i = choose|i: int| 0 <= i < at.len() && str_bytes((#[trigger] at[i])@) == bytes;
                assert(str_bytes(a[i + 1]@) == bytes);
                assert(contains_bytes(a, bytes));
                assert(bytes_lt(str_bytes(a[0]@), bytes));
                let k = choose|k: int|
                    0 <= k < b.len() && str_bytes((#[trigger] b[k])@) == bytes;
                if k == 0 {
                    assert(bytes_lt(str_bytes(a[0]@), str_bytes(a[0]@)));
                }
                assert(str_bytes(bt[k - 1]@) == bytes);
                assert(contains_bytes(bt, bytes));
            }
            if contains_bytes(bt, bytes) {
                let i = choose|i: int| 0 <= i < bt.len() && str_bytes((#[trigger] bt[i])@) == bytes;
                assert(str_bytes(b[i + 1]@) == bytes);
                assert(contains_bytes(b, bytes));
                assert(bytes_lt(str_bytes(b[0]@), bytes));
                let k = choose|k: int|
                    0 <= k < a.len() && str_bytes((#[trigger] a[k])@) == bytes;
                if k == 0 {
                    assert(bytes_lt(str_bytes(b[0]@), str_bytes(b[0]@)));
                }
                assert(str_bytes(at[k - 1]@) == bytes);
                assert(contains_bytes(at, bytes));
            }
        }
        lemma_sorted_strings_canonical(at, bt);
        assert forall|i: int|
            0 <= i < a.len() implies str_bytes((#[trigger] a[i])@) == str_bytes(b[i]@) by {
            if i > 0 {
                assert(str_bytes(at[i - 1]@) == str_bytes(bt[i - 1]@));
            }
        }
    }
}

/// The fingerprint contribution of an entity list depends only on the
/// bytes at each position.
pub proof fn lemma_fingerprint_entities_congruence(
    h: u64,
    a: Seq<String>,
    b: Seq<String>,
    from: int,
)
    requires
        a.len() == b.len(),
        forall|i: int| 0 <= i < a.len() ==> str_bytes((#[trigger] a[i])@) == str_bytes(b[i]@),
    ensures
        spec_fingerprint_entities(h, a, from) == spec_fingerprint_entities(h, b, from),
    decreases a.len() - from,
{
    if 0 <= from < a.len() {
        lemma_fingerprint_entities_congruence(
            spec_fnv_field(h, str_bytes(a[from]@)),
            a,
            b,
            from + 1,
        );
    }
}

/// Order-insensitivity of the fingerprint, at the level of one
/// visualizer's entity set: two well-formed sets holding the same entities
/// contribute the same hash, whatever order each was built in.
pub proof fn lemma_entity_sets_same_fingerprint(
    h: u64,
    a: &MaybeVisualizableEntities,
    b: &MaybeVisualizableEntities,
)
    requires
        a.wf(),
        b.wf(),
        forall|bytes: Seq<u8>| a.spec_contains(bytes) <==> b.spec_contains(bytes),
    ensures
        spec_fingerprint_entities(h, a.entities@, 0) == spec_fingerprint_entities(
            h,
            b.entities@,
            0,
        ),
{
    assert forall|bytes: Seq<u8>|
        contains_bytes(a.entities@, bytes) <==> contains_bytes(b.entities@, bytes) by {
        assert(contains_bytes(a.entities@, bytes) == a.spec_contains(bytes));
        assert(contains_bytes(b.entities@, bytes) == b.spec_contains(bytes));
    }
    lemma_sorted_strings_canonical(a.entities@, b.entities@);
    lemma_fingerprint_entities_congruence(h, a.entities@, b.entities@, 0);
}

/// A map from visualizer identifier to the entities that may be
/// visualizable by it, kept in strictly increasing byte-lexicographic order
/// of the identifiers.
pub struct PerVisualizer {
    /// The entries, strictly sorted by identifier; maintained by `insert`.
    pub items: Vec<(String, MaybeVisualizableEntities)>,
}

impl PerVisualizer {
    /// Identifiers strictly sorted, and every entity set well formed.
    pub open spec fn wf(&self) -> bool {
        &&& forall|i: int, j: int|
            #![trigger self.items@[i], self.items@[j]]
            0 <= i < j < self.items@.len() ==> bytes_lt(
                str_bytes(self.items@[i].0@),
                str_bytes(self.items@[j].0@),
            )
        &&& forall|i: int| 0 <= i < self.items@.len() ==> (#[trigger] self.items@[i].1).wf()
    }

    /// An empty map.
    pub fn new() -> (r: Self)
        ensures
            r.wf(),
            r.items@.len() == 0,
    {
        PerVisualizer { items: Vec::new() }
    }

    /// Does the map hold a visualizer with these identifier bytes?
    pub open spec fn spec_contains_key(&self, bytes: Seq<u8>) -> bool {
        exists|i: int| 0 <= i < self.items@.len() && str_bytes((#[trigger] self.items@[i]).0@) == bytes
    }

    /// Inserts a visualizer with its entity set; an identifier already
    /// present keeps its old entry.
    pub fn insert(&mut self, visualizer: String, entities: MaybeVisualizableEntities)
        requires
            old(self).wf(),
            entities.wf(),
        ensures
            final(self).wf(),
            forall|b: Seq<u8>|
                final(self).spec_contains_key(b) <==> (old(self).spec_contains_key(b) || b
                    == str_bytes(visualizer@)),
    {
        let ghost xb = str_bytes(visualizer@);
        let k = lower_bound_items(&self.items, &visualizer);
        if k < self.items.len() && str_eq(&self.items[k].0, &visualizer) {
            proof {
                assert(str_bytes(self.items@[k as int].0@) == xb);
                assert(self.spec_contains_key(xb));
            }
            return ;
        }
        proof {
            if (k as int) < self.items@.len() {
                assert(self.items@[k as int].0@ != visualizer@);
                lemma_encode_utf8_injective(self.items@[k as int].0@, visualizer@);
                lemma_bytes_le_total(str_bytes(self.items@[k as int].0@), xb);
            }
        }
        let ghost pre = *self;
        self.items.insert(k, (visualizer, entities));
        proof {
            lemma_bytes_lt_transitive_all();
            assert forall|i: int, j: int|
                0 <= i < j < self.items@.len() implies bytes_lt(
                str_bytes(self.items@[i].0@),
                str_bytes(self.items@[j].0@),
            ) by {
                let ki = k as int;
                if j < ki {
                    assert(self.items@[i] == pre.items@[i] && self.items@[j] == pre.items@[j]);
                } else if j == ki {
                    assert(self.items@[i] == pre.items@[i]);
                } else if i < ki {
                    assert(self.items@[j] == pre.items@[j - 1]);
                    if i == j - 1 {
                        assert(bytes_lt(str_bytes(pre.items@[i].0@), xb));
                        assert(bytes_lt(xb, str_bytes(pre.items@[j - 1].0@)));
                    } else {
                        assert(self.items@[i] == pre.items@[i]);
                    }
                } else if i == ki {
                    assert(self.items@[j] == pre.items@[j - 1]);
                    assert(bytes_lt(xb, str_bytes(pre.items@[ki].0@)));
                    if ki < j - 1 {
                        assert(bytes_lt(
                            str_bytes(pre.items@[ki].0@),
                            str_bytes(pre.items@[j - 1].0@),
                        ));
                    }
                } else {
                    assert(self.items@[i] == pre.items@[i - 1] && self.items@[j] == pre.items@[j
                        - 1]);
                }
            }
            assert forall|i: int| 0 <= i < self.items@.len() implies (#[trigger] self.items@[i].1).wf() by {
                let ki = k as int;
                if i < ki {
                    assert(self.items@[i] == pre.items@[i]);
                } else if i > ki {
                    assert(self.items@[i] == pre.items@[i - 1]);
                }
            }
            lemma_items_key_membership(pre, *self, k as int, xb);
        }
    }
}

/// Inserting an entry at position `k` adds exactly its identifier to the
/// keys of the map.
proof fn lemma_items_key_membership(pre: PerVisualizer, post: PerVisualizer, k: int, xb: Seq<u8>)
    requires
        0 <= k <= pre.items@.len(),
        post.items@ == pre.items@.insert(k, post.items@[k]),
        post.items@.len() == pre.items@.len() + 1,
        str_bytes(post.items@[k].0@) == xb,
    ensures
        forall|b: Seq<u8>| post.spec_contains_key(b) <==> (pre.spec_contains_key(b) || b == xb),
{
    assert forall|b: Seq<u8>|
        post.spec_contains_key(b) <==> (pre.spec_contains_key(b) || b == xb) by {
        if post.spec_contains_key(b) {
            let i = choose|i: int|
                0 <= i < post.items@.len() && str_bytes((#[trigger] post.items@[i]).0@) == b;
            if i < k {
                assert(str_bytes(pre.items@[i].0@) == b);
            } else if i > k {
                assert(str_bytes(pre.items@[i - 1].0@) == b);
            }
        }
        if pre.spec_contains_key(b) {
            let i = choose|i: int|
                0 <= i < pre.items@.len() && str_bytes((#[trigger] pre.items@[i]).0@) == b;
            if i < k {
                assert(str_bytes(post.items@[i].0@) == b);
            } else {
                assert(str_bytes(post.items@[i + 1].0@) == b);
            }
        }
        if b == xb {
            assert(str_bytes(post.items@[k].0@) == b);
        }
    }
}

/// What one visualizer entry contributes to the fingerprint: its
/// identifier, its entity count, then each entity path, all length
/// prefixed.
pub open spec fn spec_fingerprint_entry(h: u64, entry: (String, MaybeVisualizableEntities)) -> u64 {
    spec_fingerprint_entities(
        spec_fnv_u64(spec_fnv_field(h, str_bytes(entry.0@)), entry.1.entities@.len() as u64),
        entry.1.entities@,
        0,
    )
}

/// Folds the entity paths from position `from` on into the running hash.
pub open spec fn spec_fingerprint_entities(h: u64, entities: Seq<String>, from: int) -> u64
    decreases entities.len() - from,
{
    if from < 0 || from >= entities.len() {
        h
    } else {
        spec_fingerprint_entities(
            spec_fnv_field(h, str_bytes(entities[from]@)),
            entities,
            from + 1,
        )
    }
}

/// Folds the visualizer entries from position `from` on into the running
/// hash.
pub open spec fn spec_fingerprint_items(
    h: u64,
    items: Seq<(String, MaybeVisualizableEntities)>,
    from: int,
) -> u64
    decreases items.len() - from,
{
    if from < 0 || from >= items.len() {
        h
    } else {
        spec_fingerprint_items(spec_fingerprint_entry(h, items[from]), items, from + 1)
    }
}

/// The fingerprint of a per-visualizer entity map: a 64-bit FNV-1a hash of
/// every identifier and every entity path, in the map's canonical order,
/// each length prefixed.
pub open spec fn spec_subscriber_fingerprint(pv: &PerVisualizer) -> u64 {
    spec_fingerprint_items(FNV_OFFSET_BASIS, pv.items@, 0)
}

/// Computes a fingerprint of the maybe-visualizable entities per
/// visualizer.
///
/// The fingerprint accounts both for which visualizers are present and for
/// the exact set of entities associated with each of them; the map's
/// canonical order makes it independent of insertion order.
pub fn subscriber_fingerprint(maybe_visualizable: &PerVisualizer) -> (r: u64)
    ensures
        r == spec_subscriber_fingerprint(maybe_visualizable),
{
    let mut h: u64 = FNV_OFFSET_BASIS;
    let n = maybe_visualizable.items.len();
    let mut i: usize = 0;
    while i < n
        invariant
            i <= n,
            n == maybe_visualizable.items@.len(),
            spec_subscriber_fingerprint(maybe_visualizable) == spec_fingerprint_items(
                h,
                maybe_visualizable.items@,
                i as int,
            ),
        decreases n - i,
    {
        let entry = &maybe_visualizable.items[i];
        h = fnv_str(h, entry.0.as_str());
        h = fnv_u64(h, entry.1.entities.len() as u64);
        let m = entry.1.entities.len();
        let ghost h_entry_start = h;
        let mut j: usize = 0;
        while j < m
            invariant
                j <= m,
                m == entry.1.entities@.len(),
                spec_fingerprint_entities(h_entry_start, entry.1.entities@, 0)
                    == spec_fingerprint_entities(h, entry.1.entities@, j as int),
            decreases m - j,
        {
            h = fnv_str(h, entry.1.entities[j].as_str());
            j = j + 1;
        }
        i = i + 1;
    }
    h
}

/// The generation of a chunk store: how many insertions and how many
/// garbage collections it has seen. Two equal generations mean the stored
/// data is unchanged.
#[derive(Clone, Copy, Debug, PartialEq, Eq, Structural)]
pub struct ChunkStoreGeneration {
    pub insert_id: u64,
    pub gc_id: u64,
}

/// Identifies one view of the viewer.
#[derive(Clone, Copy, Debug, PartialEq, Eq, Structural)]
pub struct ViewId {
    pub value: u128,
}

/// Cache key for the visualizable-entities determination. The cached
/// answer is valid as long as the recording data has not changed, the view
/// is configured the same way, and the candidate entities per visualizer
/// are the same.
pub struct VisualizableEntitiesCacheKey {
    /// Generation of the recording database.
    pub recording_generation: ChunkStoreGeneration,
    /// The view's space origin.
    pub space_origin: String,
    /// The view's class identifier.
    pub class_identifier: String,
    /// Fingerprint of the maybe-visualizable entities per visualizer.
    pub subscriber_fingerprint: u64,
}

impl VisualizableEntitiesCacheKey {
    /// Field-wise equality of two keys.
    pub open spec fn spec_matches(&self, other: &Self) -> bool {
        &&& self.recording_generation == other.recording_generation
        &&& self.space_origin@ == other.space_origin@
        &&& self.class_identifier@ == other.class_identifier@
        &&& self.subscriber_fingerprint == other.subscriber_fingerprint
    }

    /// A fresh key with the same fields.
    pub fn duplicate(&self) -> (r: Self)
        ensures
            r.spec_matches(self),
    {
        VisualizableEntitiesCacheKey {
            recording_generation: self.recording_generation,
            space_origin: self.space_origin.clone(),
            class_identifier: self.class_identifier.clone(),
            subscriber_fingerprint: self.subscriber_fingerprint,
        }
    }

    /// Are the two keys the same?
    pub fn matches(&self, other: &Self) -> (r: bool)
        ensures
            r == self.spec_matches(other),
    {
        self.recording_generation.insert_id == other.recording_generation.insert_id
            && self.recording_generation.gc_id == other.recording_generation.gc_id && str_eq(
            &self.space_origin,
            &other.space_origin,
        ) && str_eq(&self.class_identifier, &other.class_identifier)
            && self.subscriber_fingerprint == other.subscriber_fingerprint
    }
}

/// Cached visualizable entities for a single view.
pub struct CachedVisualizableEntities {
    pub cache_key: VisualizableEntitiesCacheKey,
    pub visualizable_entities: PerVisualizer,
}

/// Cache of visualizable entities per view: at most one entry per view
/// identifier.
pub struct VisualizableEntitiesCache {
    /// At most one entry per view identifier; maintained by `store` and
    /// `remove`.
    pub entries: Vec<(ViewId, CachedVisualizableEntities)>,
}

impl VisualizableEntitiesCache {
    /// At most one entry per view.
    pub open spec fn wf(&self) -> bool {
        forall|i: int, j: int|
            #![trigger self.entries@[i], self.entries@[j]]
            0 <= i < j < self.entries@.len() ==> self.entries@[i].0 != self.entries@[j].0
    }

    /// Is a result for this view and key cached?
    pub open spec fn spec_hit(&self, view_id: ViewId, key: &VisualizableEntitiesCacheKey) -> bool {
        exists|i: int|
            0 <= i < self.entries@.len() && (#[trigger] self.entries@[i]).0 == view_id
                && self.entries@[i].1.cache_key.spec_matches(key)
    }

    /// An empty cache.
    pub fn new() -> (r: Self)
        ensures
            r.wf(),
            r.entries@.len() == 0,
    {
        VisualizableEntitiesCache { entries: Vec::new() }
    }

    /// Returns the cached determination for this view, provided the cache
    /// key still matches; `None` is a miss, and the embedder is expected
    /// to compute the answer and `store` it.
    pub fn lookup(&self, view_id: ViewId, key: &VisualizableEntitiesCacheKey) -> (r: Option<
        &PerVisualizer,
    >)
        ensures
            r is Some <==> self.spec_hit(view_id, key),
            r matches Some(v) ==> exists|i: int|
                0 <= i < self.entries@.len() && (#[trigger] self.entries@[i]).0 == view_id
                    && self.entries@[i].1.cache_key.spec_matches(key) && *v == self.entries@[i].1.visualizable_entities,
    {
        let n = self.entries.len();
        let mut i: usize = 0;
        while i < n
            invariant
                i <= n,
                n == self.entries@.len(),
                forall|k: int|
                    0 <= k < i ==> !((#[trigger] self.entries@[k]).0 == view_id
                        && self.entries@[k].1.cache_key.spec_matches(key)),
            decreases n - i,
        {
            let entry = &self.entries[i];
            if entry.0.value == view_id.value && entry.1.cache_key.matches(key) {
                return Some(&entry.1.visualizable_entities);
            }
            i = i + 1;
        }
        None
    }

    /// Stores the determination for a view, replacing whatever was cached
    /// for it.
    pub fn store(
        &mut self,
        view_id: ViewId,
        key: VisualizableEntitiesCacheKey,
        visualizable_entities: PerVisualizer,
    )
        requires
            old(self).wf(),
        ensures
            final(self).wf(),
            final(self).spec_hit(view_id, &key),
    {
        self.remove(&view_id);
        let ghost pre = *self;
        self.entries.push(
            (view_id, CachedVisualizableEntities { cache_key: key, visualizable_entities }),
        );
        proof {
            assert forall|i: int, j: int|
                0 <= i < j < self.entries@.len() implies self.entries@[i].0 != self.entries@[j].0 by {
                if j < self.entries@.len() - 1 {
                    assert(self.entries@[i] == pre.entries@[i]);
                    assert(self.entries@[j] == pre.entries@[j]);
                } else {
                    assert(self.entries@[i] == pre.entries@[i]);
                    assert(self.entries@[j].0 == view_id);
                    // The entry for this view was removed just before the
                    // push, so no earlier entry carries its identifier.
                    assert(!pre.spec_has_view(view_id));
                }
            }
            let last = self.entries@.len() - 1;
            assert(self.entries@[last].0 == view_id);
            assert(self.entries@[last].1.cache_key.spec_matches(&key));
        }
    }

    /// Get or compute the visualizable entities for a view.
    ///
    /// Answers from the cache while the key still matches; otherwise calls
    /// `determine` — the expensive outside determination — and caches what
    /// it returned. Either way the cache afterwards holds an answer for
    /// this view under this key, and that answer is returned.
    pub fn get_or_determine<F: FnOnce() -> PerVisualizer>(
        &mut self,
        view_id: ViewId,
        key: &VisualizableEntitiesCacheKey,
        determine: F,
    ) -> (r: &PerVisualizer)
        requires
            old(self).wf(),
            determine.requires(()),
        ensures
            final(self).wf(),
            final(self).spec_hit(view_id, key),
    {
        let is_hit = self.lookup(view_id, key).is_some();
        if !is_hit {
            // Cache miss: run the determination and keep its answer.
            let visualizable_entities = determine();
            let stored_key = key.duplicate();
            let ghost stored = stored_key;
            self.store(view_id, stored_key, visualizable_entities);
            proof {
                let i = choose|i: int|
                    0 <= i < self.entries@.len() && (#[trigger] self.entries@[i]).0 == view_id
                        && self.entries@[i].1.cache_key.spec_matches(&stored);
                assert(self.entries@[i].1.cache_key.spec_matches(key));
                assert(self.spec_hit(view_id, key));
            }
        }
        match self.lookup(view_id, key) {
            Some(entities) => entities,
            None => vstd::pervasive::unreached(),
        }
    }

    /// Does the cache hold an entry for this view?
    pub open spec fn spec_has_view(&self, view_id: ViewId) -> bool {
        exists|i: int| 0 <= i < self.entries@.len() && (#[trigger] self.entries@[i]).0 == view_id
    }

    /// Clear the entire cache.
    pub fn clear(&mut self)
        ensures
            final(self).wf(),
            final(self).entries@.len() == 0,
    {
        self.entries.clear();
    }

    /// Remove a specific view from the cache; call this when a view is
    /// deleted.
    pub fn remove(&mut self, view_id: &ViewId)
        requires
            old(self).wf(),
        ensures
            final(self).wf(),
            !final(self).spec_has_view(*view_id),
    {
        let n = self.entries.len();
        let mut i: usize = 0;
        while i < n
            invariant
                i <= n,
                n == self.entries@.len(),
                self.wf(),
                *self == *old(self),
                forall|k: int| 0 <= k < i ==> (#[trigger] self.entries@[k]).0 != *view_id,
            decreases n - i,
        {
            if self.entries[i].0.value == view_id.value {
                let ghost pre = *self;
                let _ = self.entries.remove(i);
                proof {
                    assert forall|k: int|
                        0 <= k < self.entries@.len() implies (#[trigger] self.entries@[k]).0
                        != *view_id by {
                        if k < i as int {
                            assert(self.entries@[k] == pre.entries@[k]);
                        } else {
                            assert(self.entries@[k] == pre.entries@[k + 1]);
                        }
                    }
                    assert forall|a: int, b: int|
                        0 <= a < b < self.entries@.len() implies self.entries@[a].0
                        != self.entries@[b].0 by {
                        let pa = if a < i as int {
                            a
                        } else {
                            a + 1
                        };
                        let pb = if b < i as int {
                            b
                        } else {
                            b + 1
                        };
                        assert(self.entries@[a] == pre.entries@[pa]);
                        assert(self.entries@[b] == pre.entries@[pb]);
                    }
                }
                return ;
            }
            i = i + 1;
        }
    }

    /// Get cache statistics for monitoring.
    pub fn stats(&self) -> (r: VisualizableEntitiesCacheStats)
        ensures
            r.cached_views == self.entries@.len(),
    {
        VisualizableEntitiesCacheStats { cached_views: self.entries.len() }
    }
}

/// Statistics about the visualizable entities cache.
#[derive(Clone, Copy, Debug)]
pub struct VisualizableEntitiesCacheStats {
    pub cached_views: usize,
}

} // verus!

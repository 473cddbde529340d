//! Reasoning support for sequences of records addressed by a key.
//!
//! The host model stores its registries (shared-data entries, queues,
//! outstanding calls, contexts, properties) as vectors of records whose
//! keys are pairwise distinct. These spec functions and lemmas give each
//! registry a by-key reading and carry it across point updates, appends
//! and removals.

use vstd::prelude::*;

verus! {

/// No two records of `s` share a key under the key function `kf`.
pub open spec fn keys_unique<T, K>(s: Seq<T>, kf: spec_fn(T) -> K) -> bool {
    forall|i: int, j: int| 0 <= i < j < s.len() ==> kf(s[i]) != kf(s[j])
}

/// Some record of `s` has key `k`.
pub open spec fn has_key<T, K>(s: Seq<T>, kf: spec_fn(T) -> K, k: K) -> bool {
    exists|i: int| 0 <= i < s.len() && kf(s[i]) == k
}

/// The position of the record with key `k` (meaningful when `has_key` and
/// `keys_unique` hold).
pub open spec fn key_index<T, K>(s: Seq<T>, kf: spec_fn(T) -> K, k: K) -> int {
    choose|i: int| 0 <= i < s.len() && kf(s[i]) == k
}

/// A record with key `k` sits at position `i`, and keys are unique, so the
/// by-key reading points at exactly that position.
pub proof fn lemma_key_index_is<T, K>(s: Seq<T>, kf: spec_fn(T) -> K, i: int)
    requires
        keys_unique(s, kf),
        0 <= i < s.len(),
    ensures
        has_key(s, kf, kf(s[i])),
        key_index(s, kf, kf(s[i])) == i,
{
    let k = kf(s[i]);
    assert(has_key(s, kf, k));
    let j = key_index(s, kf, k);
    assert(0 <= j < s.len() && kf(s[j]) == k);
    if j < i {
        assert(kf(s[j]) != kf(s[i]));
    } else if i < j {
        assert(kf(s[i]) != kf(s[j]));
    }
}

/// Replacing the record at position `i` with one of the same key keeps the
/// by-key reading of every other key intact.
pub proof fn lemma_update_keeps_others<T, K>(s1: Seq<T>, s2: Seq<T>, kf: spec_fn(T) -> K, i: int)
    requires
        keys_unique(s1, kf),
        0 <= i < s1.len(),
        s2 == s1.update(i, s2[i]),
        kf(s2[i]) == kf(s1[i]),
    ensures
        keys_unique(s2, kf),
        has_key(s2, kf, kf(s1[i])),
        key_index(s2, kf, kf(s1[i])) == i,
        forall|k2: K| k2 != kf(s1[i]) ==> #[trigger] has_key(s2, kf, k2) == has_key(s1, kf, k2),
        forall|k2: K|
            k2 != kf(s1[i]) && has_key(s1, kf, k2) ==> s2[#[trigger] key_index(s2, kf, k2)] == s1[key_index(s1, kf, k2)],
{
    assert(forall|m: int| 0 <= m < s2.len() && m != i ==> s2[m] == s1[m]);
    assert(forall|m: int| 0 <= m < s2.len() ==> kf(s2[m]) == kf(s1[m]));
    lemma_key_index_is(s2, kf, i);
    assert forall|k2: K| k2 != kf(s1[i]) implies #[trigger] has_key(s2, kf, k2) == has_key(
        s1,
        kf,
        k2,
    ) by {
        if has_key(s1, kf, k2) {
            let j = key_index(s1, kf, k2);
            assert(kf(s2[j]) == k2);
        }
        if has_key(s2, kf, k2) {
            let j = key_index(s2, kf, k2);
            assert(kf(s1[j]) == k2);
        }
    }
    assert forall|k2: K| k2 != kf(s1[i]) && has_key(s1, kf, k2) implies s2[#[trigger] key_index(
        s2,
        kf,
        k2,
    )] == s1[key_index(s1, kf, k2)] by {
        let j1 = key_index(s1, kf, k2);
        assert(0 <= j1 < s1.len() && kf(s1[j1]) == k2);
        assert(kf(s2[j1]) == k2);
        lemma_key_index_is(s2, kf, j1);
        assert(j1 != i);
    }
}

/// Appending a record with a fresh key keeps the by-key reading of every
/// existing key intact and files the new key at the end.
pub proof fn lemma_push_keeps_others<T, K>(s1: Seq<T>, s2: Seq<T>, kf: spec_fn(T) -> K)
    requires
        keys_unique(s1, kf),
        s2.len() == s1.len() + 1,
        s2 == s1.push(s2.last()),
        !has_key(s1, kf, kf(s2.last())),
    ensures
        keys_unique(s2, kf),
        has_key(s2, kf, kf(s2.last())),
        key_index(s2, kf, kf(s2.last())) == s1.len(),
        forall|k2: K| k2 != kf(s2.last()) ==> #[trigger] has_key(s2, kf, k2) == has_key(s1, kf, k2),
        forall|k2: K|
            k2 != kf(s2.last()) && has_key(s1, kf, k2) ==> s2[#[trigger] key_index(s2, kf, k2)]
                == s1[key_index(s1, kf, k2)],
{
    assert(forall|m: int| 0 <= m < s1.len() ==> s2[m] == s1[m]);
    assert forall|i: int, j: int| 0 <= i < j < s2.len() implies kf(s2[i]) != kf(s2[j]) by {
        if j < s1.len() {
        } else {
            assert(s2[j] == s2.last());
            assert(kf(s2[i]) == kf(s1[i]));
        }
    }
    lemma_key_index_is(s2, kf, s1.len() as int);
    assert forall|k2: K| k2 != kf(s2.last()) implies #[trigger] has_key(s2, kf, k2) == has_key(
        s1,
        kf,
        k2,
    ) by {
        if has_key(s1, kf, k2) {
            let j = key_index(s1, kf, k2);
            assert(kf(s2[j]) == k2);
        }
        if has_key(s2, kf, k2) {
            let j = key_index(s2, kf, k2);
            assert(j < s1.len());
            assert(kf(s1[j]) == k2);
        }
    }
    assert forall|k2: K| k2 != kf(s2.last()) && has_key(s1, kf, k2) implies s2[#[trigger] key_index(
        s2,
        kf,
        k2,
    )] == s1[key_index(s1, kf, k2)] by {
        let j1 = key_index(s1, kf, k2);
        assert(0 <= j1 < s1.len() && kf(s1[j1]) == k2);
        assert(kf(s2[j1]) == k2);
        lemma_key_index_is(s2, kf, j1);
    }
}

/// Removing the record at position `i` retires its key and keeps the
/// by-key reading of every other key intact.
pub proof fn lemma_remove_keeps_others<T, K>(s1: Seq<T>, s2: Seq<T>, kf: spec_fn(T) -> K, i: int)
    requires
        keys_unique(s1, kf),
        0 <= i < s1.len(),
        s2 == s1.remove(i),
    ensures
        keys_unique(s2, kf),
        !has_key(s2, kf, kf(s1[i])),
        forall|k2: K| k2 != kf(s1[i]) ==> #[trigger] has_key(s2, kf, k2) == has_key(s1, kf, k2),
        forall|k2: K|
            k2 != kf(s1[i]) && has_key(s1, kf, k2) ==> s2[#[trigger] key_index(s2, kf, k2)] == s1[key_index(s1, kf, k2)],
{
    assert(forall|m: int| 0 <= m < i ==> s2[m] == s1[m]);
    assert(forall|m: int| i <= m < s2.len() ==> s2[m] == s1[m + 1]);
    assert forall|p: int, q: int| 0 <= p < q < s2.len() implies kf(s2[p]) != kf(s2[q]) by {
        let p1 = if p < i { p } else { p + 1 };
        let q1 = if q < i { q } else { q + 1 };
        assert(s2[p] == s1[p1] && s2[q] == s1[q1]);
    }
    if has_key(s2, kf, kf(s1[i])) {
        let j = key_index(s2, kf, kf(s1[i]));
        let j1 = if j < i { j } else { j + 1 };
        assert(kf(s1[j1]) == kf(s1[i]));
        assert(j1 != i);
        assert(false);
    }
    assert forall|k2: K| k2 != kf(s1[i]) implies #[trigger] has_key(s2, kf, k2) == has_key(
        s1,
        kf,
        k2,
    ) by {
        if has_key(s1, kf, k2) {
            let j = key_index(s1, kf, k2);
            assert(kf(s1[j]) == k2);
            assert(j != i);
            if j < i {
                assert(kf(s2[j]) == k2);
            } else {
                assert(kf(s2[j - 1]) == k2);
            }
        }
        if has_key(s2, kf, k2) {
            let j = key_index(s2, kf, k2);
            let j1 = if j < i { j } else { j + 1 };
            assert(kf(s1[j1]) == k2);
        }
    }
    assert forall|k2: K| k2 != kf(s1[i]) && has_key(s1, kf, k2) implies s2[#[trigger] key_index(
        s2,
        kf,
        k2,
    )] == s1[key_index(s1, kf, k2)] by {
        let j1 = key_index(s1, kf, k2);
        assert(kf(s1[j1]) == k2 && j1 != i);
        let j2 = if j1 < i { j1 } else { j1 - 1 };
        assert(s2[j2] == s1[j1]);
        lemma_key_index_is(s2, kf, j2);
    }
}

} // verus!

//! Byte-string keys and lookup in keyed sequences.
use vstd::prelude::*;

verus! {

/// An account of the host ledger.
pub type AccountId = u64;

/// An amount of the host currency.
pub type Balance = u64;

/// A tick of the host's logical clock.
pub type BlockNumber = u64;

/// `keys[i]` is the first occurrence of `key`.
pub open spec fn is_first_at<K>(keys: Seq<K>, key: K, i: int) -> bool {
    &&& 0 <= i < keys.len()
    &&& keys[i] == key
    &&& forall|j: int| 0 <= j < i ==> keys[j] != key
}

/// Where `key` first occurs in `keys`, if it occurs at all. For given keys
/// it is decided by [`lemma_position_found`] and [`lemma_position_absent`].
pub open spec fn position<K>(keys: Seq<K>, key: K) -> Option<int> {
    if exists|i: int| is_first_at(keys, key, i) {
        Some(choose|i: int| is_first_at(keys, key, i))
    } else {
        None
    }
}

/// No key occurs twice.
pub open spec fn distinct<K>(keys: Seq<K>) -> bool {
    forall|i: int, j: int| 0 <= i < j < keys.len() ==> keys[i] != keys[j]
}

/// A first occurrence is the position.
pub proof fn lemma_position_found<K>(keys: Seq<K>, key: K, i: int)
    requires
        is_first_at(keys, key, i),
    ensures
        position(keys, key) == Some(i),
{
    let c = choose|c: int| is_first_at(keys, key, c);
    assert(is_first_at(keys, key, c));
    if c < i {
        assert(keys[c] != key);
    } else if i < c {
        assert(keys[i] != key);
    }
}

/// A key that occurs nowhere has no position.
pub proof fn lemma_position_absent<K>(keys: Seq<K>, key: K)
    requires
        forall|j: int| 0 <= j < keys.len() ==> keys[j] != key,
    ensures
        position(keys, key) is None,
{
}

/// What the position says of the sequence.
pub proof fn lemma_position<K>(keys: Seq<K>, key: K)
    ensures
        match position(keys, key) {
            Some(i) => is_first_at(keys, key, i),
            None => forall|j: int| 0 <= j < keys.len() ==> keys[j] != key,
        },
{
    if exists|i: int| is_first_at(keys, key, i) {
    } else {
        assert forall|j: int| 0 <= j < keys.len() implies keys[j] != key by {
            if keys[j] == key {
                lemma_some_first(keys, key, j);
            }
        }
    }
}

/// Before any occurrence there is a first one.
proof fn lemma_some_first<K>(keys: Seq<K>, key: K, j: int)
    requires
        0 <= j < keys.len(),
        keys[j] == key,
    ensures
        exists|i: int| is_first_at(keys, key, i),
    decreases j,
{
    if forall|k: int| 0 <= k < j ==> keys[k] != key {
        assert(is_first_at(keys, key, j));
    } else {
        let k = choose|k: int| 0 <= k < j && keys[k] == key;
        lemma_some_first(keys, key, k);
    }
}

/// Adding a key at the end moves no position, and gives the new key the
/// last position where it had none.
pub proof fn lemma_position_push<K>(keys: Seq<K>, last: K, key: K)
    ensures
        position(keys.push(last), key) == match position(keys, key) {
            Some(i) => Some(i),
            None => if last == key {
                Some(keys.len() as int)
            } else {
                None
            },
        },
{
    let longer = keys.push(last);
    lemma_position(keys, key);
    match position(keys, key) {
        Some(i) => {
            assert(longer[i] == keys[i]);
            assert forall|j: int| 0 <= j < i implies longer[j] != key by {
                assert(longer[j] == keys[j]);
            }
            lemma_position_found(longer, key, i);
        },
        None => {
            if last == key {
                assert forall|j: int| 0 <= j < keys.len() implies longer[j] != key by {
                    assert(longer[j] == keys[j]);
                }
                lemma_position_found(longer, key, keys.len() as int);
            } else {
                assert forall|j: int| 0 <= j < longer.len() implies longer[j] != key by {
                    if j < keys.len() {
                        assert(longer[j] == keys[j]);
                    }
                }
                lemma_position_absent(longer, key);
            }
        },
    }
}

/// Taking one of distinct keys away moves the later keys one place down and
/// no other.
pub proof fn lemma_position_remove<K>(keys: Seq<K>, at: int, key: K)
    requires
        distinct(keys),
        0 <= at < keys.len(),
        key != keys[at],
    ensures
        position(keys.remove(at), key) == match position(keys, key) {
            Some(i) => Some(
                if i < at {
                    i
                } else {
                    i - 1
                },
            ),
            None => None,
        },
{
    let left = keys.remove(at);
    lemma_position(keys, key);
    match position(keys, key) {
        Some(i) => {
            let to = if i < at {
                i
            } else {
                i - 1
            };
            assert(left[to] == keys[i]);
            assert forall|j: int| 0 <= j < to implies left[j] != key by {
                let from = if j < at {
                    j
                } else {
                    j + 1
                };
                assert(left[j] == keys[from]);
            }
            lemma_position_found(left, key, to);
        },
        None => {
            assert forall|j: int| 0 <= j < left.len() implies left[j] != key by {
                let from = if j < at {
                    j
                } else {
                    j + 1
                };
                assert(left[j] == keys[from]);
            }
            lemma_position_absent(left, key);
        },
    }
}

/// Distinct keys with one more that is none of them are distinct.
pub proof fn lemma_distinct_push<K>(keys: Seq<K>, last: K)
    requires
        distinct(keys),
        forall|j: int| 0 <= j < keys.len() ==> keys[j] != last,
    ensures
        distinct(keys.push(last)),
{
}

/// Whether two byte strings hold the same bytes.
pub fn bytes_eq(a: &Vec<u8>, b: &Vec<u8>) -> (same: bool)
    ensures
        same == (a@ == b@),
{
    if a.len() != b.len() {
        return false;
    }
    let mut i: usize = 0;
    while i < a.len()
        invariant
            a.len() == b.len(),
            i <= a.len(),
            forall|j: int| 0 <= j < i ==> a@[j] == b@[j],
        decreases a.len() - i,
    {
        if a[i] != b[i] {
            return false;
        }
        i += 1;
    }
    assert(a@ =~= b@);
    true
}

/// A fresh byte string with the same bytes.
pub(crate) fn copy_bytes(a: &Vec<u8>) -> (copy: Vec<u8>)
    ensures
        copy@ == a@,
{
    a.clone()
}

/// A fresh optional byte string with the same bytes.
pub(crate) fn copy_optional_bytes(a: &Option<Vec<u8>>) -> (copy: Option<Vec<u8>>)
    ensures
        optional_bytes(copy) == optional_bytes(*a),
{
    match a {
        Some(bytes) => Some(copy_bytes(bytes)),
        None => None,
    }
}

/// The bytes of an optional byte string.
pub open spec fn optional_bytes(a: Option<Vec<u8>>) -> Option<Seq<u8>> {
    match a {
        Some(bytes) => Some(bytes@),
        None => None,
    }
}

} // verus!

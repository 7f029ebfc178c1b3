//! Deduplication of recently seen content through SHA-256 content hashes
//! kept in an LRU set.

use vstd::prelude::*;
use lru::LruCache;
use crate::hex::{hex_encode, hex_text, law_hex_text_injective};

verus! {

/// Default number of hashes remembered.
pub const DEFAULT_CAPACITY: usize = 1000;

#[verifier::external_type_specification]
#[verifier::external_body]
#[verifier::reject_recursive_types(K)]
#[verifier::reject_recursive_types(V)]
#[verifier::reject_recursive_types(S)]
pub struct ExLruCache<K, V, S>(LruCache<K, V, S>);

#[verifier::external_type_specification]
#[verifier::external_body]
pub struct ExLruDefaultHasher(lru::DefaultHasher);

/// The keys an LRU set holds, least recently used first.
pub uninterp spec fn lru_keys(c: LruCache<String, ()>) -> Seq<Seq<char>>;

/// The capacity an LRU set was made with.
pub uninterp spec fn lru_capacity(c: LruCache<String, ()>) -> nat;

/// `keys` without `k`.
pub open spec fn without(keys: Seq<Seq<char>>, k: Seq<char>) -> Seq<Seq<char>>
    decreases keys.len(),
{
    if keys.len() == 0 {
        Seq::empty()
    } else if keys.last() == k {
        without(keys.drop_last(), k)
    } else {
        without(keys.drop_last(), k).push(keys.last())
    }
}

/// The keys after `put(k)`: a present key becomes the most recent; a new key
/// is added as the most recent, evicting the least recent when full.
pub open spec fn keys_after_put(keys: Seq<Seq<char>>, k: Seq<char>, cap: nat) -> Seq<Seq<char>> {
    if keys.contains(k) {
        without(keys, k).push(k)
    } else if keys.len() >= cap {
        keys.drop_first().push(k)
    } else {
        keys.push(k)
    }
}

/// lru's `LruCache::new`: an empty cache holding at most `cap` entries.
#[verifier::external_body]
fn lru_new(cap: usize) -> (c: LruCache<String, ()>)
    requires
        cap > 0,
    ensures
        lru_keys(c) == Seq::<Seq<char>>::empty(),
        lru_capacity(c) == cap,
{
    LruCache::new(std::num::NonZeroUsize::new(cap).unwrap())
}

/// lru's `LruCache::contains`: whether the key is held; the recency order is
/// not updated.
#[verifier::external_body]
fn lru_contains(c: &LruCache<String, ()>, k: &String) -> (r: bool)
    ensures
        r == lru_keys(*c).contains(k@),
{
    c.contains(k)
}

/// lru's `LruCache::put`: the key becomes the most recently used; when it
/// is new and the cache is full, the least recently used key is evicted.
#[verifier::external_body]
fn lru_put(c: &mut LruCache<String, ()>, k: String)
    ensures
        lru_capacity(*final(c)) == lru_capacity(*old(c)),
        lru_keys(*final(c)) == keys_after_put(lru_keys(*old(c)), k@, lru_capacity(*old(c))),
{
    c.put(k, ());
}

/// The SHA-256 digest of the UTF-8 encoding of a text.
pub uninterp spec fn sha256_of(text: Seq<char>) -> Seq<u8>;

/// sha2's `Sha256::digest` of the UTF-8 bytes of `text`: a 32-byte digest
/// that depends on the text alone.
#[verifier::external_body]
fn sha256_digest(text: &str) -> (r: Vec<u8>)
    ensures
        r@ == sha256_of(text@),
        r@.len() == 32,
{
    <sha2::Sha256 as sha2::Digest>::digest(text.as_bytes()).to_vec()
}

/// The content hash of a text: its SHA-256 digest in lowercase hex.
pub open spec fn content_hash_of(text: Seq<char>) -> Seq<char> {
    hex_text(sha256_of(text))
}

/// The lowercase hexadecimal SHA-256 digest of `content` (64 characters).
pub fn content_hash(content: &str) -> (h: String)
    ensures
        h@ == content_hash_of(content@),
        h@.len() == 64,
{
    let digest = sha256_digest(content);
    proof {
        crate::hex::law_hex_text_shape(digest@);
    }
    hex_encode(digest.as_slice())
}

/// Remembers the hashes of recently seen content.
pub struct Deduplicator {
    recent_hashes: LruCache<String, ()>,
}

impl Deduplicator {
    /// The remembered hashes, least recently used first.
    pub closed spec fn hashes(&self) -> Seq<Seq<char>> {
        lru_keys(self.recent_hashes)
    }

    /// How many hashes are remembered at most.
    pub closed spec fn capacity(&self) -> nat {
        lru_capacity(self.recent_hashes)
    }

    /// A deduplicator remembering up to `capacity` hashes (at least one).
    pub fn new(capacity: usize) -> (d: Deduplicator)
        ensures
            d.hashes().len() == 0,
            d.capacity() == if capacity == 0 { 1 } else { capacity as nat },
    {
        let cap = if capacity == 0 { 1 } else { capacity };
        Deduplicator { recent_hashes: lru_new(cap) }
    }

    /// Returns `true` if `content` was seen recently, leaving the memory as
    /// it is; otherwise remembers it and returns `false`.
    pub fn is_duplicate(&mut self, content: &str) -> (dup: bool)
        ensures
            dup == old(self).hashes().contains(content_hash_of(content@)),
            final(self).capacity() == old(self).capacity(),
            final(self).hashes() == if dup {
                old(self).hashes()
            } else {
                keys_after_put(old(self).hashes(), content_hash_of(content@), old(self).capacity())
            },
    {
        let hash = content_hash(content);
        if lru_contains(&self.recent_hashes, &hash) {
            return true;
        }
        lru_put(&mut self.recent_hashes, hash);
        false
    }
}

impl Default for Deduplicator {
    /// A deduplicator with the default capacity.
    fn default() -> (d: Deduplicator)
        ensures
            d.hashes().len() == 0,
            d.capacity() == DEFAULT_CAPACITY,
    {
        Self::new(DEFAULT_CAPACITY)
    }
}

/// Content just remembered is reported as a duplicate the next time.
pub proof fn law_remembered_content_is_duplicate(keys: Seq<Seq<char>>, h: Seq<char>, cap: nat)
    requires
        cap > 0,
    ensures
        keys_after_put(keys, h, cap).contains(h),
{
    assert(keys_after_put(keys, h, cap).last() == h);
}

/// The memory never holds more hashes than its capacity.
pub proof fn law_memory_is_bounded(keys: Seq<Seq<char>>, h: Seq<char>, cap: nat)
    requires
        keys.len() <= cap,
        cap > 0,
    ensures
        keys_after_put(keys, h, cap).len() <= cap,
{
    if keys.contains(h) {
        lemma_without_shorter(keys, h);
    }
}

/// Removing a present key shortens the sequence.
proof fn lemma_without_shorter(keys: Seq<Seq<char>>, k: Seq<char>)
    requires
        keys.contains(k),
    ensures
        without(keys, k).len() < keys.len(),
    decreases keys.len(),
{
    lemma_without_len(keys.drop_last(), k);
    if keys.last() != k {
        let i = choose|i: int| 0 <= i < keys.len() && keys[i] == k;
        assert(keys.drop_last()[i] == k);
        lemma_without_shorter(keys.drop_last(), k);
    }
}

/// Removing a key never lengthens the sequence.
proof fn lemma_without_len(keys: Seq<Seq<char>>, k: Seq<char>)
    ensures
        without(keys, k).len() <= keys.len(),
    decreases keys.len(),
{
    if keys.len() > 0 {
        lemma_without_len(keys.drop_last(), k);
    }
}

/// With room for one hash, a new hash evicts the previous one.
pub proof fn law_new_content_evicts_least_recent(keys: Seq<Seq<char>>, h: Seq<char>, cap: nat)
    requires
        keys.len() == cap,
        cap > 0,
        !keys.contains(h),
    ensures
        keys_after_put(keys, h, cap) == keys.drop_first().push(h),
{
}

/// The content hash covers the whole text: two texts get the same hash
/// exactly when the SHA-256 digests of their whole UTF-8 encodings agree.
pub proof fn law_hash_is_whole_text_digest(a: Seq<char>, b: Seq<char>)
    ensures
        content_hash_of(a) == content_hash_of(b) <==> sha256_of(a) == sha256_of(b),
{
    if content_hash_of(a) == content_hash_of(b) {
        law_hex_text_injective(sha256_of(a), sha256_of(b));
    }
}

/// After a fresh deduplicator has seen `a`, a check of `b` reports a
/// duplicate exactly when `b` has the same SHA-256 digest as `a`: texts
/// whose digests differ (say, pages sharing only a header) are both kept.
pub proof fn law_second_text_is_duplicate_only_if_same_digest(a: Seq<char>, b: Seq<char>, cap: nat)
    requires
        cap > 0,
    ensures
        keys_after_put(Seq::empty(), content_hash_of(a), cap).contains(content_hash_of(b)) <==> sha256_of(a)
            == sha256_of(b),
{
    let keys = keys_after_put(Seq::<Seq<char>>::empty(), content_hash_of(a), cap);
    assert(keys =~= seq![content_hash_of(a)]);
    law_hash_is_whole_text_digest(a, b);
    if keys.contains(content_hash_of(b)) {
        assert(keys[0] == content_hash_of(b));
    }
    if sha256_of(a) == sha256_of(b) {
        assert(keys[0] == content_hash_of(b));
    }
}

} // verus!

//! Access tokens of the MCP server: how a raw token is made, how a
//! presented token is matched against the stored bcrypt hashes, and the
//! cache that spares repeated bcrypt checks. Reading and writing the token
//! rows is the application's part.

use vstd::prelude::*;
use crate::hex::{hex_encode, hex_text};
use crate::model::TokenInfo;
use crate::text::{opt_view, str_eq};
use crate::types::{keys_unique, lookup, pair_view, ContexaError};

verus! {

/// Whether bcrypt accepts `password` for the stored `hash` (bcrypt's
/// `verify`, with a malformed hash counting as a mismatch).
pub uninterp spec fn bcrypt_accepts(password: Seq<char>, hash: Seq<char>) -> bool;

/// bcrypt's `verify(password, hash)`, an error (a malformed hash) read as
/// "no match". The result is named: it is a function of the password and
/// the hash alone (the hash carries its salt and cost).
#[verifier::external_body]
fn bcrypt_verify(password: &str, hash: &str) -> (r: bool)
    ensures
        r == bcrypt_accepts(password@, hash@),
{
    bcrypt::verify(password, hash).unwrap_or(false)
}

/// bcrypt's `hash(password, DEFAULT_COST)`. The salt is random, so only
/// this is claimed: a hash it returns is accepted for the same password by
/// `verify` (the source hashes the truncated, null-terminated password the
/// same way in both). Its error, from the system's random source, is
/// returned as its text.
#[verifier::external_body]
fn bcrypt_hash(password: &str) -> (r: Result<String, String>)
    ensures
        r matches Ok(h) ==> bcrypt_accepts(password@, h@),
{
    bcrypt::hash(password, bcrypt::DEFAULT_COST).map_err(|e| e.to_string())
}

/// 32 random bytes from rand's thread-local generator
/// (`rand::random::<[u8; 32]>()`). Only the length is claimed.
#[verifier::external_body]
fn random_token_bytes() -> (r: Vec<u8>)
    ensures
        r@.len() == 32,
{
    rand::random::<[u8; 32]>().to_vec()
}

/// The raw token shown once to the user: `ctx_` and 64 lowercase hex
/// digits of randomness.
pub fn generate_raw_token() -> (t: String)
    ensures
        exists|bytes: Seq<u8>| bytes.len() == 32 && t@ == "ctx_"@ + hex_text(bytes),
{
    let bytes = random_token_bytes();
    let t = String::from_str("ctx_").concat(hex_encode(bytes.as_slice()).as_str());
    assert(t@ == "ctx_"@ + hex_text(bytes@));
    t
}

/// The bcrypt hash stored for a raw token; a failure of the random source
/// becomes a conversion error carrying its text.
pub fn hash_token(raw: &str) -> (r: Result<String, ContexaError>)
    ensures
        r matches Ok(h) ==> bcrypt_accepts(raw@, h@),
        r matches Err(e) ==> e is Conversion,
{
    match bcrypt_hash(raw) {
        Ok(h) => Ok(h),
        Err(m) => Err(ContexaError::Conversion(m)),
    }
}

/// The position of the first of `tokens` whose hash accepts `token`.
pub open spec fn first_match(token: Seq<char>, hashes: Seq<Seq<char>>) -> Option<int> {
    if exists|i: int| 0 <= i < hashes.len() && bcrypt_accepts(token, #[trigger] hashes[i]) {
        Some(
            choose|i: int|
                0 <= i < hashes.len() && bcrypt_accepts(token, #[trigger] hashes[i]) && forall|j: int|
                    0 <= j < i ==> !bcrypt_accepts(token, #[trigger] hashes[j]),
        )
    } else {
        None
    }
}

/// The stored hashes of `tokens`.
pub open spec fn token_hashes(tokens: Seq<TokenInfo>) -> Seq<Seq<char>> {
    tokens.map_values(|t: TokenInfo| t.token_hash@)
}

/// The first of the active `tokens` that `token` matches, checking each
/// stored hash with bcrypt in order.
pub fn first_matching_token(token: &str, tokens: &Vec<TokenInfo>) -> (r: Option<usize>)
    ensures
        match r {
            Some(i) => first_match(token@, token_hashes(tokens@)) == Some(i as int),
            None => first_match(token@, token_hashes(tokens@)) is None,
        },
{
    let ghost hs = token_hashes(tokens@);
    let mut i: usize = 0;
    while i < tokens.len()
        invariant
            i <= tokens.len(),
            hs == token_hashes(tokens@),
            forall|j: int| 0 <= j < i ==> !bcrypt_accepts(token@, #[trigger] hs[j]),
        decreases tokens.len() - i,
    {
        if bcrypt_verify(token, tokens[i].token_hash.as_str()) {
            proof {
                assert(bcrypt_accepts(token@, hs[i as int]));
                let p = choose|p: int|
                    0 <= p < hs.len() && bcrypt_accepts(token@, #[trigger] hs[p]) && forall|j: int|
                        0 <= j < p ==> !bcrypt_accepts(token@, #[trigger] hs[j]);
                if p < i {
                    assert(!bcrypt_accepts(token@, hs[p]));
                }
                if i < p {
                    assert(!bcrypt_accepts(token@, hs[i as int]));
                }
            }
            return Some(i);
        }
        i += 1;
    }
    None
}

/// The entries of `s` whose value is not `v`, in order.
pub open spec fn drop_value(s: Seq<(Seq<char>, Seq<char>)>, v: Seq<char>) -> Seq<(Seq<char>, Seq<char>)>
    decreases s.len(),
{
    if s.len() == 0 {
        s
    } else if s[0].1 == v {
        drop_value(s.drop_first(), v)
    } else {
        seq![s[0]] + drop_value(s.drop_first(), v)
    }
}

/// A key that occurs among the entries is found by `lookup`.
proof fn lemma_present_key_found(s: Seq<(Seq<char>, Seq<char>)>, i: int)
    requires
        0 <= i < s.len(),
    ensures
        lookup(s, s[i].0) is Some,
    decreases s.len(),
{
    if i > 0 && s[0].0 != s[i].0 {
        assert(s.drop_first()[i - 1] == s[i]);
        lemma_present_key_found(s.drop_first(), i - 1);
    }
}

/// Dropping the entries with value `v` forgets exactly the keys mapped to
/// `v`, and keeps keys unique.
proof fn lemma_drop_value(s: Seq<(Seq<char>, Seq<char>)>, v: Seq<char>, k: Seq<char>)
    requires
        keys_unique(s),
    ensures
        lookup(drop_value(s, v), k) == if lookup(s, k) == Some(v) { None } else { lookup(s, k) },
        keys_unique(drop_value(s, v)),
    decreases s.len(),
{
    if s.len() > 0 {
        let rest = s.drop_first();
        assert(keys_unique(rest)) by {
            assert forall|i: int, j: int| 0 <= i < rest.len() && 0 <= j < rest.len() && i != j implies #[trigger] rest[i].0
                != #[trigger] rest[j].0 by {
                assert(rest[i] == s[i + 1]);
                assert(rest[j] == s[j + 1]);
            }
        }
        lemma_drop_value(rest, v, k);
        lemma_drop_value(rest, v, s[0].0);
        // The first key does not occur again.
        assert(lookup(rest, s[0].0) is None) by {
            if lookup(rest, s[0].0) is Some {
                lemma_found_has_index(rest, s[0].0);
                let j = choose|j: int| 0 <= j < rest.len() && rest[j].0 == s[0].0;
                assert(s[j + 1].0 == s[0].0);
            }
        }
        if s[0].1 != v {
            let d = seq![s[0]] + drop_value(rest, v);
            assert(d[0] == s[0]);
            assert(d.drop_first() =~= drop_value(rest, v));
            assert(keys_unique(d)) by {
                assert forall|i: int, j: int| 0 <= i < d.len() && 0 <= j < d.len() && i != j implies #[trigger] d[i].0
                    != #[trigger] d[j].0 by {
                    if i == 0 && j > 0 {
                        assert(d[j] == drop_value(rest, v)[j - 1]);
                        if d[j].0 == s[0].0 {
                            lemma_present_key_found(drop_value(rest, v), j - 1);
                        }
                    } else if j == 0 && i > 0 {
                        assert(d[i] == drop_value(rest, v)[i - 1]);
                        if d[i].0 == s[0].0 {
                            lemma_present_key_found(drop_value(rest, v), i - 1);
                        }
                    } else if i > 0 && j > 0 {
                        assert(d[i] == drop_value(rest, v)[i - 1]);
                        assert(d[j] == drop_value(rest, v)[j - 1]);
                    }
                }
            }
        }
    }
}

/// A key that `lookup` finds occurs at some position.
proof fn lemma_found_has_index(s: Seq<(Seq<char>, Seq<char>)>, k: Seq<char>)
    requires
        lookup(s, k) is Some,
    ensures
        exists|j: int| 0 <= j < s.len() && s[j].0 == k,
    decreases s.len(),
{
    if s[0].0 != k {
        lemma_found_has_index(s.drop_first(), k);
        let j = choose|j: int| 0 <= j < s.drop_first().len() && s.drop_first()[j].0 == k;
        assert(s[j + 1].0 == k);
    } else {
        assert(s[0].0 == k);
    }
}

/// The tokens already validated, by raw token, with their token ids.
pub struct TokenCache {
    validated: crate::types::Metadata,
}

impl TokenCache {
    /// Raw token and token id pairs.
    pub closed spec fn entries(&self) -> Seq<(Seq<char>, Seq<char>)> {
        self.validated@
    }

    /// The token id cached for a raw token.
    pub open spec fn cached(&self, token: Seq<char>) -> Option<Seq<char>> {
        lookup(self.entries(), token)
    }

    /// Each raw token is cached at most once.
    pub closed spec fn wf(&self) -> bool {
        self.validated.wf()
    }

    /// An empty cache.
    pub fn new() -> (c: TokenCache)
        ensures
            c.wf(),
            forall|t: Seq<char>| c.cached(t) is None,
    {
        let c = TokenCache { validated: crate::types::Metadata::new() };
        assert forall|t: Seq<char>| c.cached(t) is None by {
            assert(c.entries().len() == 0);
        }
        c
    }

    /// The token id cached for `token`, if it was validated before.
    pub fn get(&self, token: &str) -> (r: Option<String>)
        ensures
            opt_view(r) == self.cached(token@),
    {
        self.validated.get(token)
    }

    /// Caches a successful validation of `token` as `token_id`.
    pub fn remember(&mut self, token: &str, token_id: &str)
        requires
            old(self).wf(),
        ensures
            final(self).wf(),
            final(self).cached(token@) == Some(token_id@),
            forall|t: Seq<char>| t != token@ ==> final(self).cached(t) == old(self).cached(t),
    {
        self.validated.insert(String::from_str(token), String::from_str(token_id));
        assert forall|t: Seq<char>| t != token@ implies self.cached(t) == old(self).cached(t) by {
            assert(self.validated.spec_get(t) == old(self).validated.spec_get(t));
        }
    }

    /// Forgets every validation that led to `token_id` (after revoking it).
    pub fn forget_id(&mut self, token_id: &str)
        requires
            old(self).wf(),
        ensures
            final(self).wf(),
            forall|t: Seq<char>|
                #[trigger] final(self).cached(t) == if old(self).cached(t) == Some(token_id@) {
                    None
                } else {
                    old(self).cached(t)
                },
    {
        let ghost s = self.validated@;
        let n = self.validated.entries.len();
        let mut kept: Vec<(String, String)> = Vec::new();
        let mut i: usize = n;
        while i > 0
            invariant
                i <= n,
                n == self.validated.entries.len(),
                s == self.validated@,
                kept@.map_values(|e: (String, String)| pair_view(e)) == drop_value(s.subrange(i as int, n as int), token_id@),
            decreases i,
        {
            let ghost tail = s.subrange(i as int, n as int);
            let ghost full = s.subrange(i - 1, n as int);
            assert(full.drop_first() =~= tail);
            assert(full[0] == s[i - 1]);
            let same = str_eq(self.validated.entries[i - 1].1.as_str(), token_id);
            if !same {
                let ghost prev = kept@;
                let e = (self.validated.entries[i - 1].0.clone(), self.validated.entries[i - 1].1.clone());
                kept.insert(0, e);
                assert(kept@.map_values(|e: (String, String)| pair_view(e)) =~= seq![pair_view(e)] + prev.map_values(
                    |e: (String, String)| pair_view(e),
                ));
            }
            i -= 1;
        }
        assert(s.subrange(0, n as int) =~= s);
        proof {
            assert forall|t: Seq<char>| lookup(drop_value(s, token_id@), t) == (if lookup(s, t) == Some(token_id@) {
                None
            } else {
                lookup(s, t)
            }) by {
                lemma_drop_value(s, token_id@, t);
            }
            lemma_drop_value(s, token_id@, token_id@);
        }
        self.validated = crate::types::Metadata { entries: kept };
    }
}

impl Default for TokenCache {
    /// Same as `new`.
    fn default() -> (c: Self)
        ensures
            c.wf(),
            forall|t: Seq<char>| c.cached(t) is None,
    {
        Self::new()
    }
}

/// Revoking a token id forgets exactly the cached validations that led to
/// it: a token cached for another id stays cached.
pub proof fn law_revoke_forgets_only_that_id(
    s: Seq<(Seq<char>, Seq<char>)>,
    revoked: Seq<char>,
    token: Seq<char>,
)
    requires
        keys_unique(s),
    ensures
        lookup(s, token) == Some(revoked) ==> lookup(drop_value(s, revoked), token) is None,
        lookup(s, token) != Some(revoked) ==> lookup(drop_value(s, revoked), token) == lookup(s, token),
{
    lemma_drop_value(s, revoked, token);
}

/// A freshly hashed token validates against its own hash: if it is the
/// first stored token that matches, the match is found at its position.
pub proof fn law_fresh_token_matches_its_hash(raw: Seq<char>, hashes: Seq<Seq<char>>, i: int)
    requires
        0 <= i < hashes.len(),
        bcrypt_accepts(raw, hashes[i]),
    ensures
        first_match(raw, hashes) matches Some(k) && k <= i && bcrypt_accepts(raw, hashes[k]),
{
    assert(exists|p: int|
        0 <= p < hashes.len() && bcrypt_accepts(raw, #[trigger] hashes[p]) && forall|j: int|
            0 <= j < p ==> !bcrypt_accepts(raw, #[trigger] hashes[j])) by {
        lemma_first_accepting(raw, hashes, i);
    }
    let k = first_match(raw, hashes)->0;
    if k > i {
        assert(!bcrypt_accepts(raw, hashes[i]));
    }
}

/// An accepting hash at `i` means there is a first accepting one.
proof fn lemma_first_accepting(raw: Seq<char>, hashes: Seq<Seq<char>>, i: int)
    requires
        0 <= i < hashes.len(),
        bcrypt_accepts(raw, hashes[i]),
    ensures
        exists|p: int|
            0 <= p < hashes.len() && bcrypt_accepts(raw, #[trigger] hashes[p]) && forall|j: int|
                0 <= j < p ==> !bcrypt_accepts(raw, #[trigger] hashes[j]),
    decreases i,
{
    if exists|j: int| 0 <= j < i && bcrypt_accepts(raw, #[trigger] hashes[j]) {
        let j = choose|j: int| 0 <= j < i && bcrypt_accepts(raw, #[trigger] hashes[j]);
        lemma_first_accepting(raw, hashes, j);
    }
}

} // verus!

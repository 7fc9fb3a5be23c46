use vstd::prelude::*;
use vstd::string::StringSliceAdditionalSpecFns;

use crate::crypto::ed25519_valid;
use crate::crypto::ed25519_verify;
use crate::crypto::fresh_account_id;
use crate::errors::AuthError;
use crate::store::Binding;
use crate::store::KeyAccountStore;

verus! {

/// What a lookup returns: the bound account when the key is known,
/// `NotFound` otherwise.
pub open spec fn lookup_spec(s: KeyAccountStore, public_key: Seq<u8>) -> Result<u128, AuthError> {
    if s.contains_key(public_key) {
        Ok(s.account_of(public_key))
    } else {
        Err(AuthError::NotFound)
    }
}

/// What an authentication returns: `NotFound` when the key is unknown (the
/// signature is not examined then), `InvalidSignature` when the proof of
/// possession fails, and the bound account when it holds.
pub open spec fn authenticate_spec(
    s: KeyAccountStore,
    public_key: Seq<u8>,
    message: Seq<u8>,
    signature: Seq<u8>,
) -> Result<u128, AuthError> {
    if !s.contains_key(public_key) {
        Err(AuthError::NotFound)
    } else if !ed25519_valid(public_key, message, signature) {
        Err(AuthError::InvalidSignature)
    } else {
        Ok(s.account_of(public_key))
    }
}

/// When a registration is owed success: the email signature proves
/// possession of the key, and no binding for the key exists yet.
pub open spec fn register_allowed(
    s: KeyAccountStore,
    public_key: Seq<u8>,
    email: Seq<u8>,
    signature: Seq<u8>,
) -> bool {
    ed25519_valid(public_key, email, signature) && !s.contains_key(public_key)
}

/// Decide a lookup from the store's answer alone: the bound account when
/// one was found, `NotFound` otherwise. Callers that keep the mapping
/// elsewhere (a database table) hand in what their store returned.
pub fn lookup_decision(found: Option<u128>) -> (r: Result<u128, AuthError>)
    ensures
        found is Some ==> r == Ok::<u128, AuthError>(found->Some_0),
        found is None ==> r == Err::<u128, AuthError>(AuthError::NotFound),
{
    match found {
        Some(id) => Ok(id),
        None => Err(AuthError::NotFound),
    }
}

/// Decide an authentication from the store's answer and the proof of
/// possession: an unknown key fails `NotFound`, a failed signature check
/// `InvalidSignature`, and otherwise the found account is returned.
pub fn authenticate_decision(
    found: Option<u128>,
    public_key: &Vec<u8>,
    message: &str,
    message_signature: &Vec<u8>,
) -> (r: Result<u128, AuthError>)
    ensures
        found is None ==> r == Err::<u128, AuthError>(AuthError::NotFound),
        found is Some && !ed25519_valid(public_key@, message.spec_bytes(), message_signature@)
            ==> r == Err::<u128, AuthError>(AuthError::InvalidSignature),
        found is Some && ed25519_valid(public_key@, message.spec_bytes(), message_signature@)
            ==> r == Ok::<u128, AuthError>(found->Some_0),
{
    match found {
        Some(account_id) => {
            let verified = ed25519_verify(public_key, message, message_signature);
            if verified {
                Ok(account_id)
            } else {
                Err(AuthError::InvalidSignature)
            }
        },
        None => Err(AuthError::NotFound),
    }
}

/// Decide a registration from the store's answer and the proof of
/// possession: a failed signature check (malformed encodings included) is
/// `InvalidSignature`, a key already bound is rejected as `StoreError`, and
/// otherwise a fresh random identifier is drawn and returned for the caller
/// to persist.
pub fn register_decision(
    found: Option<u128>,
    public_key: &Vec<u8>,
    email: &str,
    email_signature: &Vec<u8>,
) -> (r: Result<u128, AuthError>)
    ensures
        !ed25519_valid(public_key@, email.spec_bytes(), email_signature@) ==> r == Err::<
            u128,
            AuthError,
        >(AuthError::InvalidSignature),
        ed25519_valid(public_key@, email.spec_bytes(), email_signature@) && found is Some ==> r
            == Err::<u128, AuthError>(AuthError::StoreError),
        r is Ok <==> ed25519_valid(public_key@, email.spec_bytes(), email_signature@)
            && found is None,
{
    let verified = ed25519_verify(public_key, email, email_signature);
    if !verified {
        return Err(AuthError::InvalidSignature);
    }
    if found.is_some() {
        return Err(AuthError::StoreError);
    }
    Ok(fresh_account_id())
}

/// Resolve the account bound to `public_key`. Read-only: the result is a
/// function of the store contents and the key alone, and no signature is
/// checked — this resolves identity, not possession.
pub fn lookup(store: &KeyAccountStore, public_key: &Vec<u8>) -> (r: Result<u128, AuthError>)
    requires
        store.wf(),
    ensures
        r == lookup_spec(*store, public_key@),
        store.contains_key(public_key@) ==> r == Ok::<u128, AuthError>(
            store.account_of(public_key@),
        ),
        !store.contains_key(public_key@) ==> r == Err::<u128, AuthError>(AuthError::NotFound),
{
    lookup_decision(store.get_account_id(public_key))
}

/// Register an account: verify the signature over the UTF-8 bytes of
/// `email`, and on success bind a fresh identifier to `public_key`. The
/// store is mutated exactly when the result is `Ok`; a failed proof of
/// possession (malformed encodings included) is `InvalidSignature`, and a
/// key already bound is rejected by the store's uniqueness constraint as
/// `StoreError`.
pub fn register(
    store: &mut KeyAccountStore,
    public_key: &Vec<u8>,
    email: &str,
    email_signature: &Vec<u8>,
) -> (r: Result<u128, AuthError>)
    requires
        old(store).wf(),
    ensures
        final(store).wf(),
        r is Ok <==> register_allowed(*old(store), public_key@, email.spec_bytes(), email_signature@),
        !ed25519_valid(public_key@, email.spec_bytes(), email_signature@) ==> r == Err::<
            u128,
            AuthError,
        >(AuthError::InvalidSignature) && *final(store) == *old(store),
        ed25519_valid(public_key@, email.spec_bytes(), email_signature@) && old(
            store,
        ).contains_key(public_key@) ==> r == Err::<u128, AuthError>(AuthError::StoreError)
            && final(store).bindings@ == old(store).bindings@,
        r is Ok ==> final(store).bindings@.len() == old(store).bindings@.len() + 1
            && final(store).bindings@.subrange(0, old(store).bindings@.len() as int)
                == old(store).bindings@
            && final(store).bindings@.last().account_id == r->Ok_0
            && final(store).bindings@.last().key() == public_key@
            && final(store).bindings@.last().email@ == email@
            && final(store).contains_key(public_key@)
            && final(store).account_of(public_key@) == r->Ok_0,
{
    let found = store.get_account_id(public_key);
    match register_decision(found, public_key, email, email_signature) {
        Ok(id) => {
            let key_copy = copy_bytes(public_key);
            match store.add_account_mapping(key_copy, id, email.to_owned()) {
                Ok(()) => Ok(id),
                Err(e) => Err(e),
            }
        },
        Err(e) => Err(e),
    }
}

/// Authenticate a client-supplied message: resolve the binding first
/// (unknown keys fail `NotFound` without any cryptographic work), then
/// check the signature over the UTF-8 bytes of `message`. Never mutates
/// state.
pub fn authenticate(
    store: &KeyAccountStore,
    public_key: &Vec<u8>,
    message: &str,
    message_signature: &Vec<u8>,
) -> (r: Result<u128, AuthError>)
    requires
        store.wf(),
    ensures
        r == authenticate_spec(*store, public_key@, message.spec_bytes(), message_signature@),
        !store.contains_key(public_key@) ==> r == Err::<u128, AuthError>(AuthError::NotFound),
        store.contains_key(public_key@) && !ed25519_valid(
            public_key@,
            message.spec_bytes(),
            message_signature@,
        ) ==> r == Err::<u128, AuthError>(AuthError::InvalidSignature),
        store.contains_key(public_key@) && ed25519_valid(
            public_key@,
            message.spec_bytes(),
            message_signature@,
        ) ==> r == Ok::<u128, AuthError>(store.account_of(public_key@)),
{
    authenticate_decision(store.get_account_id(public_key), public_key, message, message_signature)
}

/// A fresh owned copy of a byte vector.
fn copy_bytes(v: &Vec<u8>) -> (r: Vec<u8>)
    ensures
        r@ == v@,
{
    let mut out: Vec<u8> = Vec::new();
    let n = v.len();
    let mut i: usize = 0;
    while i < n
        invariant
            i <= n,
            n == v@.len(),
            out@ == v@.subrange(0, i as int),
        decreases n - i,
    {
        out.push(v[i]);
        proof {
            assert(out@ =~= v@.subrange(0, i + 1 as int));
        }
        i += 1;
    }
    proof {
        assert(out@ =~= v@);
    }
    out
}

/// Law: a registration that succeeded binds its key, and a key that is
/// bound can never be registered again — whatever email or signature the
/// second attempt carries.
pub proof fn lemma_register_at_most_once(
    pre: KeyAccountStore,
    post: KeyAccountStore,
    public_key: Seq<u8>,
    email1: Seq<u8>,
    sig1: Seq<u8>,
    email2: Seq<u8>,
    sig2: Seq<u8>,
)
    requires
        register_allowed(pre, public_key, email1, sig1),
        post.contains_key(public_key),
    ensures
        !register_allowed(post, public_key, email2, sig2),
{
}

/// Law: after a binding of `public_key` to `account_id` exists, every
/// message whose signature proves possession of the key authenticates to
/// exactly that account.
pub proof fn lemma_authenticate_after_register(
    s: KeyAccountStore,
    public_key: Seq<u8>,
    account_id: u128,
    message: Seq<u8>,
    signature: Seq<u8>,
)
    requires
        s.contains_key(public_key),
        s.account_of(public_key) == account_id,
        ed25519_valid(public_key, message, signature),
    ensures
        authenticate_spec(s, public_key, message, signature) == Ok::<u128, AuthError>(account_id),
{
}

/// Law: for a registered key, a signature that does not verify is rejected
/// as `InvalidSignature`.
pub proof fn lemma_authenticate_rejects_bad_signature(
    s: KeyAccountStore,
    public_key: Seq<u8>,
    message: Seq<u8>,
    signature: Seq<u8>,
)
    requires
        s.contains_key(public_key),
        !ed25519_valid(public_key, message, signature),
    ensures
        authenticate_spec(s, public_key, message, signature) == Err::<u128, AuthError>(
            AuthError::InvalidSignature,
        ),
{
}

/// Law: for an unregistered key, authentication fails `NotFound` whatever
/// the message and signature are.
pub proof fn lemma_authenticate_unknown_key(
    s: KeyAccountStore,
    public_key: Seq<u8>,
    message: Seq<u8>,
    signature: Seq<u8>,
)
    requires
        !s.contains_key(public_key),
    ensures
        authenticate_spec(s, public_key, message, signature) == Err::<u128, AuthError>(
            AuthError::NotFound,
        ),
{
}

/// Law: lookup is a function of the store contents and the key alone — two
/// stores holding the same records answer every lookup alike.
pub proof fn lemma_lookup_deterministic(s: KeyAccountStore, t: KeyAccountStore, k: Seq<u8>)
    requires
        s.bindings@ == t.bindings@,
    ensures
        lookup_spec(s, k) == lookup_spec(t, k),
{
}

/// Law: a registration for a different key does not change what lookup
/// returns for `k` — lookups are stable until a registration for the looked
/// up key itself occurs.
pub proof fn lemma_lookup_unaffected_by_other_key(
    s: KeyAccountStore,
    t: KeyAccountStore,
    b: Binding,
    k: Seq<u8>,
)
    requires
        s.wf(),
        t.wf(),
        t.bindings@ == s.bindings@.push(b),
        b.key() != k,
    ensures
        lookup_spec(t, k) == lookup_spec(s, k),
{
    assert(s.contains_key(k) <==> t.contains_key(k)) by {
        if s.contains_key(k) {
            let i = choose|i: int| 0 <= i < s.bindings@.len() && s.bindings@[i].key() == k;
            assert(t.bindings@[i].key() == k);
        }
        if t.contains_key(k) {
            let i = choose|i: int| 0 <= i < t.bindings@.len() && t.bindings@[i].key() == k;
            assert(i < s.bindings@.len());
            assert(s.bindings@[i].key() == k);
        }
    }
    if s.contains_key(k) {
        let i = choose|i: int| 0 <= i < s.bindings@.len() && s.bindings@[i].key() == k;
        assert(t.bindings@[i].key() == k);
        t.lemma_account_of_at(k, i);
        s.lemma_account_of_at(k, i);
    }
}

} // verus!

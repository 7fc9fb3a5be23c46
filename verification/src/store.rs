use vstd::prelude::*;

use crate::errors::AuthError;

verus! {

/// A persisted record: the association between one public key and the
/// account identity (plus email) bound to it at registration time.
pub struct Binding {
    /// 128-bit account identifier, generated fresh at registration.
    pub account_id: u128,
    /// Encoded public key bytes; the natural key of the store.
    pub public_key: Vec<u8>,
    /// Caller-supplied email, stored verbatim.
    pub email: String,
}

impl Binding {
    /// The natural key of this record.
    pub open spec fn key(self) -> Seq<u8> {
        self.public_key@
    }
}

/// The key-to-account mapping: sole source of truth for bindings. At most
/// one binding exists per distinct public key; records are created once and
/// never mutated or deleted.
pub struct KeyAccountStore {
    pub bindings: Vec<Binding>,
}

/// Byte-sequence equality on slices.
fn bytes_eq(a: &[u8], b: &[u8]) -> (r: bool)
    ensures
        r <==> a@ == b@,
{
    if a.len() != b.len() {
        return false;
    }
    let n = a.len();
    let mut i: usize = 0;
    while i < n
        invariant
            i <= n,
            n == a@.len(),
            n == b@.len(),
            forall|k: int| 0 <= k < i ==> a@[k] == b@[k],
        decreases n - i,
    {
        if a[i] != b[i] {
            return false;
        }
        i += 1;
    }
    assert(a@ =~= b@);
    true
}

impl KeyAccountStore {
    /// Well-formed: distinct records carry distinct public keys.
    pub open spec fn wf(self) -> bool {
        forall|i: int, j: int|
            0 <= i < j < self.bindings@.len() ==> self.bindings@[i].key() != self.bindings@[j].key()
    }

    /// Whether some binding carries the public key `k`.
    pub open spec fn contains_key(self, k: Seq<u8>) -> bool {
        exists|i: int| 0 <= i < self.bindings@.len() && self.bindings@[i].key() == k
    }

    /// The account identifier bound to `k` (meaningful when `contains_key(k)`
    /// holds; well-defined then because keys are unique in a well-formed store).
    pub open spec fn account_of(self, k: Seq<u8>) -> u128 {
        let i = choose|i: int| 0 <= i < self.bindings@.len() && self.bindings@[i].key() == k;
        self.bindings@[i].account_id
    }

    /// In a well-formed store, any record carrying key `k` is the one
    /// `account_of` speaks of.
    pub proof fn lemma_account_of_at(self, k: Seq<u8>, i: int)
        requires
            self.wf(),
            0 <= i < self.bindings@.len(),
            self.bindings@[i].key() == k,
        ensures
            self.contains_key(k),
            self.account_of(k) == self.bindings@[i].account_id,
    {
        assert(self.contains_key(k));
        let j = choose|j: int| 0 <= j < self.bindings@.len() && self.bindings@[j].key() == k;
        if i != j {
            assert(self.bindings@[i].key() != self.bindings@[j].key());
        }
    }

    /// An empty store, well-formed and binding nothing.
    pub fn new() -> (s: Self)
        ensures
            s.wf(),
            s.bindings@.len() == 0,
            forall|k: Seq<u8>| !s.contains_key(k),
    {
        KeyAccountStore { bindings: Vec::new() }
    }

    /// Read-only lookup of the account bound to `public_key`: `Some` exactly
    /// when a binding exists, and then the bound identifier; no side effects.
    pub fn get_account_id(&self, public_key: &Vec<u8>) -> (r: Option<u128>)
        requires
            self.wf(),
        ensures
            r is Some <==> self.contains_key(public_key@),
            r is Some ==> r->Some_0 == self.account_of(public_key@),
    {
        let n = self.bindings.len();
        let mut i: usize = 0;
        while i < n
            invariant
                i <= n,
                n == self.bindings@.len(),
                self.wf(),
                forall|k: int| 0 <= k < i ==> self.bindings@[k].key() != public_key@,
            decreases n - i,
        {
            if bytes_eq(self.bindings[i].public_key.as_slice(), public_key.as_slice()) {
                proof {
                    self.lemma_account_of_at(public_key@, i as int);
                }
                return Some(self.bindings[i].account_id);
            }
            i += 1;
        }
        None
    }

    /// Create the one binding for `public_key`. Rejects a duplicate key with
    /// `StoreError` (the uniqueness constraint is the store's to enforce) and
    /// leaves the store unchanged then; otherwise appends exactly one record,
    /// visible to subsequent lookups.
    pub fn add_account_mapping(
        &mut self,
        public_key: Vec<u8>,
        account_id: u128,
        email: String,
    ) -> (r: Result<(), AuthError>)
        requires
            old(self).wf(),
        ensures
            final(self).wf(),
            old(self).contains_key(public_key@) ==> r == Err::<(), AuthError>(AuthError::StoreError)
                && final(self).bindings@ == old(self).bindings@,
            !old(self).contains_key(public_key@) ==> r == Ok::<(), AuthError>(())
                && final(self).bindings@.len() == old(self).bindings@.len() + 1
                && final(self).bindings@.subrange(0, old(self).bindings@.len() as int)
                    == old(self).bindings@
                && final(self).bindings@.last().account_id == account_id
                && final(self).bindings@.last().key() == public_key@
                && final(self).bindings@.last().email@ == email@,
            !old(self).contains_key(public_key@) ==> final(self).contains_key(public_key@)
                && final(self).account_of(public_key@) == account_id,
    {
        if self.get_account_id(&public_key).is_some() {
            return Err(AuthError::StoreError);
        }
        let ghost pre = self.bindings@;
        let binding = Binding { account_id, public_key, email };
        let ghost b = binding;
        self.bindings.push(binding);
        proof {
            assert(self.bindings@ == pre.push(b));
            assert(self.bindings@.subrange(0, pre.len() as int) =~= pre);
            assert forall|i: int, j: int|
                0 <= i < j < self.bindings@.len() implies self.bindings@[i].key()
                != self.bindings@[j].key() by {
                if j < pre.len() {
                    assert(old(self).wf());
                } else {
                    assert(self.bindings@[j] == b);
                    assert(!old(self).contains_key(b.key()));
                }
            }
            self.lemma_account_of_at(b.key(), pre.len() as int);
        }
        Ok(())
    }
}

} // verus!

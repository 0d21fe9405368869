//! The address occupancy registry: the set of peer addresses that a live
//! connection owns.
//!
//! The set itself is `scc::HashSet`, keyed by [`Endpoint::key`] and hashed
//! with `ahash`. Verus does not look inside it: what it holds is the
//! uninterpreted [`held_keys`], and the three functions that touch it are
//! believed, not proved. Everything else in this module is verified against
//! them.

use vstd::prelude::*;
use crate::endpoint::{Endpoint, Key, lemma_key_injective};
use crate::error::Error;

verus! {

/// `scc::HashSet`, carried as an opaque value.
#[verifier::external_type_specification]
#[verifier::external_body]
#[verifier::reject_recursive_types(K)]
#[verifier::reject_recursive_types(H)]
pub struct ExSccHashSet<K, H: core::hash::BuildHasher>(scc::HashSet<K, H>);

/// `ahash::RandomState`, carried as an opaque value.
#[verifier::external_type_specification]
#[verifier::external_body]
pub struct ExAhashRandomState(ahash::RandomState);

/// `ahash::AHasher`, the hasher that `ahash::RandomState` builds, carried as
/// an opaque value.
#[verifier::external_type_specification]
#[verifier::external_body]
pub struct ExAhashAHasher(ahash::AHasher);

/// The keys that an `scc::HashSet` holds.
pub uninterp spec fn held_keys(
    set: scc::HashSet<Key, ahash::RandomState>,
) -> Set<Key>;

/// Calls `scc::HashSet::default`, which makes a set that holds no key.
#[verifier::external_body]
fn set_new() -> (set: scc::HashSet<Key, ahash::RandomState>)
    ensures
        held_keys(set) == Set::<Key>::empty(),
{
    scc::HashSet::default()
}

/// Calls `scc::HashSet::insert`. The key is in the set afterwards and nothing
/// else changed. The call succeeds when the key was absent; when it was
/// present, the error hands the key back.
#[verifier::external_body]
fn set_insert(
    set: &mut scc::HashSet<Key, ahash::RandomState>,
    key: Key,
) -> (r: Result<(), Key>)
    ensures
        r is Ok <==> !held_keys(*old(set)).contains(key),
        r matches Err(k) ==> k == key,
        held_keys(*final(set)) == held_keys(*old(set)).insert(key),
{
    set.insert(key)
}

/// Calls `scc::HashSet::remove`. The key is not in the set afterwards and
/// nothing else changed. The call returns the key when it was present and
/// `None` when it was not.
#[verifier::external_body]
fn set_remove(
    set: &mut scc::HashSet<Key, ahash::RandomState>,
    key: &Key,
) -> (r: Option<Key>)
    ensures
        r == (if held_keys(*old(set)).contains(*key) {
            Some(*key)
        } else {
            None
        }),
        held_keys(*final(set)) == held_keys(*old(set)).remove(*key),
{
    set.remove(key)
}

/// The set of peer addresses that are reserved.
pub struct Registry {
    set: scc::HashSet<Key, ahash::RandomState>,
}

impl Registry {
    /// The reserved addresses.
    pub closed spec fn view(&self) -> Set<Endpoint> {
        Set::new(|e: Endpoint| held_keys(self.set).contains(e.key()))
    }

    /// A registry in which no address is reserved.
    pub fn new() -> (r: Registry)
        ensures
            r@ == Set::<Endpoint>::empty(),
    {
        let r = Registry { set: set_new() };
        assert(r@ =~= Set::<Endpoint>::empty());
        r
    }

    /// Reserves `addr` if no one holds it, as one step.
    ///
    /// Fails with [`Error::AddressInUse`] exactly when `addr` is already
    /// reserved, and then changes nothing.
    pub fn reserve(&mut self, addr: Endpoint) -> (r: Result<(), Error>)
        ensures
            r is Ok <==> !old(self)@.contains(addr),
            r is Err ==> r == Err::<(), Error>(Error::AddressInUse),
            final(self)@ == old(self)@.insert(addr),
    {
        let inserted = set_insert(&mut self.set, addr.to_key());
        proof {
            assert forall|e: Endpoint| self@.contains(e) == old(self)@.insert(addr).contains(e) by {
                lemma_key_injective(e, addr);
            }
            assert(self@ =~= old(self)@.insert(addr));
        }
        match inserted {
            Ok(()) => Ok(()),
            Err(_) => Err(Error::AddressInUse),
        }
    }

    /// Gives `addr` up. Returns whether it was reserved.
    pub fn release(&mut self, addr: Endpoint) -> (was_reserved: bool)
        ensures
            was_reserved == old(self)@.contains(addr),
            final(self)@ == old(self)@.remove(addr),
    {
        let key = addr.to_key();
        let removed = set_remove(&mut self.set, &key);
        proof {
            assert forall|e: Endpoint| self@.contains(e) == old(self)@.remove(addr).contains(e) by {
                lemma_key_injective(e, addr);
            }
            assert(self@ =~= old(self)@.remove(addr));
        }
        removed.is_some()
    }
}

} // verus!

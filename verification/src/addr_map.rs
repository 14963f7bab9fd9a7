//! A map from 64-bit keys to 64-bit values, kept in a `hashbrown::HashMap`.
use vstd::prelude::*;

verus! {

/// A hash map from `u64` keys to `u64` values.
#[verifier::external_body]
pub struct AddressMap {
    map: hashbrown::HashMap<u64, u64>,
}

/// The contents of the map.
pub uninterp spec fn address_map_contents(m: AddressMap) -> Map<u64, u64>;

impl AddressMap {
    /// An empty map, from `hashbrown::HashMap::new`, which holds no entry.
    #[verifier::external_body]
    pub(crate) fn new() -> (r: AddressMap)
        ensures
            address_map_contents(r).dom() == Set::<u64>::empty(),
    {
        AddressMap { map: hashbrown::HashMap::new() }
    }

    /// The value stored under `key`, from `hashbrown::HashMap::get`.
    #[verifier::external_body]
    pub(crate) fn get(&self, key: u64) -> (r: Option<u64>)
        ensures
            address_map_contents(*self).contains_key(key) ==> r == Some(address_map_contents(*self)[key]),
            !address_map_contents(*self).contains_key(key) ==> r is None,
    {
        self.map.get(&key).copied()
    }

    /// Stores `value` under `key`, replacing any earlier value, through
    /// `hashbrown::HashMap::insert`.
    #[verifier::external_body]
    pub(crate) fn insert(&mut self, key: u64, value: u64)
        ensures
            address_map_contents(*final(self)) == address_map_contents(*old(self)).insert(key, value),
    {
        self.map.insert(key, value);
    }
}

} // verus!

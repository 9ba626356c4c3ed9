//! Remembered host names: what a reverse lookup gave for an address is kept,
//! a failed lookup too, so that no address is looked up twice.

use crate::addr::Ipv4Addr;
use crate::mac::clone_option_string;
use std::collections::HashMap;
use vstd::prelude::*;

verus! {

broadcast use vstd::std_specs::hash::group_hash_axioms;

/// What is to be done to learn the name of a host.
pub enum DnsStep {
    /// The address was looked up before, with this result (`None`: it has no name).
    Known(Option<String>),
    /// The address is to be looked up, and the result stored.
    Lookup,
}

/// The names found so far, by address.
pub struct DnsResolver {
    names: HashMap<u32, Option<String>>,
    concurrent_limit: usize,
}

impl View for DnsResolver {
    type V = Map<u32, Option<String>>;

    closed spec fn view(&self) -> Map<u32, Option<String>> {
        self.names@
    }
}

impl DnsResolver {
    /// A resolver that knows no address yet and runs at most `concurrent_limit`
    /// lookups at a time.
    pub fn new(concurrent_limit: usize) -> (r: DnsResolver)
        ensures
            r@ == Map::<u32, Option<String>>::empty(),
            r.limit() == concurrent_limit,
    {
        DnsResolver { names: HashMap::new(), concurrent_limit }
    }

    /// How many lookups may run at a time.
    pub closed spec fn limit(&self) -> usize {
        self.concurrent_limit
    }

    /// How many lookups may run at a time.
    pub fn concurrent_limit(&self) -> (r: usize)
        ensures
            r == self.limit(),
    {
        self.concurrent_limit
    }

    /// What is to be done for `ip`: nothing where it was looked up before, whatever
    /// came of it; else a lookup.
    pub fn resolve(&self, ip: Ipv4Addr) -> (r: DnsStep)
        ensures
            r == if self@.contains_key(ip@) {
                DnsStep::Known(self@[ip@])
            } else {
                DnsStep::Lookup
            },
    {
        let key: u32 = ip.to_u32();
        match self.names.get(&key) {
            Some(name) => DnsStep::Known(clone_option_string(name)),
            None => DnsStep::Lookup,
        }
    }

    /// Keeps the result of a lookup of `ip`: its name, or `None` where it has none
    /// or the lookup failed.
    pub fn store(&mut self, ip: Ipv4Addr, name: Option<String>)
        ensures
            final(self)@ == old(self)@.insert(ip@, name),
            final(self).limit() == old(self).limit(),
    {
        self.names.insert(ip.to_u32(), name);
    }

    /// Forgets every address.
    pub fn clear_cache(&mut self)
        ensures
            final(self)@ == Map::<u32, Option<String>>::empty(),
            final(self).limit() == old(self).limit(),
    {
        self.names.clear();
    }

    /// How many addresses are known.
    pub fn len(&self) -> (r: usize)
        ensures
            r == self@.len(),
    {
        self.names.len()
    }
}

impl Default for DnsResolver {
    /// A resolver that runs at most 20 lookups at a time.
    fn default() -> (r: DnsResolver)
        ensures
            r@ == Map::<u32, Option<String>>::empty(),
            r.limit() == 20,
    {
        DnsResolver::new(20)
    }
}

/// Once the result of a lookup is stored, the address is never looked up again,
/// even where the lookup gave no name; what is known of other addresses stays.
pub proof fn lemma_lookup_once(known: Map<u32, Option<String>>, ip: u32, name: Option<String>)
    ensures
        known.insert(ip, name).contains_key(ip),
        known.insert(ip, name)[ip] == name,
        forall|other: u32|
            other != ip ==> (known.insert(ip, name).contains_key(other) == known.contains_key(other))
                && known.insert(ip, name)[other] == known[other],
{
}

} // verus!

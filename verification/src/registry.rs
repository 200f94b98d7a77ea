//! The capability registry: the table binding a script-visible name,
//! unique within the registry, to the fixed positional arity of its
//! native handler.  It is filled once during environment setup and never
//! unregisters during a run.  An argument-count mismatch found through
//! it is a programmer error, raised at the marshalling boundary, never
//! reported through the error channel.

use vstd::prelude::*;

verus! {

use vstd::hash_map::StringHashMap;

/// Refusal to register a second capability under a taken name.
pub struct DuplicateName;

/// The registry of capability names and their arities.
pub struct Registry {
    caps: StringHashMap<u64>,
}

impl View for Registry {
    type V = Map<Seq<char>, u64>;

    closed spec fn view(&self) -> Map<Seq<char>, u64> {
        self.caps@
    }
}

impl Registry {
    /// An empty registry.
    pub fn new() -> (r: Registry)
        ensures
            r@ == Map::<Seq<char>, u64>::empty(),
    {
        Registry { caps: StringHashMap::new() }
    }

    /// Registers a capability under a unique name; a second registration
    /// of the same name is refused and changes nothing.
    pub fn register(&mut self, name: String, arity: u64) -> (r: Result<(), DuplicateName>)
        ensures
            match r {
                Ok(_) => !old(self)@.contains_key(name@) && final(self)@ == old(self)@.insert(
                    name@,
                    arity,
                ),
                Err(_) => old(self)@.contains_key(name@) && final(self)@ == old(self)@,
            },
    {
        if self.caps.contains_key(name.as_str()) {
            Err(DuplicateName)
        } else {
            self.caps.insert(name, arity);
            Ok(())
        }
    }

    /// The arity registered under a name, if the name is known.
    pub fn lookup(&self, name: &str) -> (r: Option<u64>)
        ensures
            match r {
                Some(a) => self@.contains_key(name@) && a == self@[name@],
                None => !self@.contains_key(name@),
            },
    {
        match self.caps.get(name) {
            Some(a) => Some(*a),
            None => None,
        }
    }

    /// The check at the marshalling boundary: the name is known and was
    /// called with its registered argument count.
    pub fn arity_ok(&self, name: &str, given: u64) -> (r: bool)
        ensures
            r == (self@.contains_key(name@) && self@[name@] == given),
    {
        match self.lookup(name) {
            Some(a) => a == given,
            None => false,
        }
    }
}

} // verus!

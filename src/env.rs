//! The reference count of the process-wide engine environment.
use vstd::prelude::*;

use crate::error::{NativeStatus, OrtError};

verus! {

/// Counts the sessions that share the engine environment. The native context
/// is created on the first acquisition and torn down on the last release; the
/// caller keeps this count behind the same lock as those native calls.
#[derive(Debug)]
pub struct EnvironmentCount {
    name: String,
    count: u64,
}

impl EnvironmentCount {
    /// The number of live references.
    pub closed spec fn count(self) -> nat {
        self.count as nat
    }

    /// The environment's name.
    pub closed spec fn name_spec(self) -> String {
        self.name
    }

    /// A count of zero for the environment named `name`.
    pub fn new(name: String) -> (r: EnvironmentCount)
        ensures
            r.count() == 0,
            r.name_spec() == name,
    {
        EnvironmentCount { name, count: 0 }
    }

    /// The environment's name.
    pub fn name(&self) -> (r: &String)
        ensures
            *r == self.name_spec(),
    {
        &self.name
    }

    /// The number of live references.
    pub fn references(&self) -> (r: u64)
        ensures
            r == self.count(),
    {
        self.count
    }

    /// Whether an acquisition must create the native context first.
    pub fn needs_creation(&self) -> (r: bool)
        ensures
            r == (self.count() == 0),
    {
        self.count == 0
    }

    /// Records an acquisition. `creation` is the status of the native
    /// creation, made only where `needs_creation` said so; its failure is an
    /// environment error and leaves the count at zero.
    pub fn acquire(&mut self, creation: NativeStatus) -> (r: Result<(), OrtError>)
        requires
            old(self).count() < u64::MAX,
        ensures
            final(self).name_spec() == old(self).name_spec(),
            (r is Ok) == (old(self).count() > 0 || creation is None),
            r is Ok ==> final(self).count() == old(self).count() + 1,
            r is Err ==> final(self).count() == old(self).count(),
            r is Err ==> (creation matches Some(m) && r == Err::<(), OrtError>(
                OrtError::Environment(m),
            )),
    {
        if self.count == 0 {
            match creation {
                Some(m) => {
                    return Err(OrtError::Environment(m));
                },
                None => {},
            }
        }
        self.count = self.count + 1;
        Ok(())
    }

    /// Records a release; says whether the native context is now to be torn
    /// down, which is when the last reference is gone.
    pub fn release(&mut self) -> (r: bool)
        requires
            old(self).count() > 0,
        ensures
            final(self).name_spec() == old(self).name_spec(),
            final(self).count() == old(self).count() - 1,
            r == (final(self).count() == 0),
    {
        self.count = self.count - 1;
        self.count == 0
    }
}

} // verus!

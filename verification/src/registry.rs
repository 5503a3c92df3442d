//! The check registry: an ordered collection of named checks with unique
//! names, each carrying a timeout and a criticality flag. Registration
//! happens at startup; afterwards the registry is read-only.

use vstd::prelude::*;

verus! {

/// A registered check: its unique name, its per-invocation timeout in
/// milliseconds, and whether its failure makes the whole service unhealthy.
/// The probe callable itself lives with the caller, keyed by this check's
/// position in the registry.
#[derive(Debug)]
pub struct CheckSpec {
    pub name: String,
    pub timeout_ms: u64,
    pub critical: bool,
}

/// Registering a second check under an already-present name fails with this
/// error; the first registration is kept.
#[derive(Clone, Copy, Debug, PartialEq, Eq, Structural)]
pub struct DuplicateNameError;

/// Checks in registration order, with pairwise distinct names.
#[derive(Debug)]
pub struct CheckRegistry {
    checks: Vec<CheckSpec>,
}

impl CheckRegistry {
    /// The checks in registration order.
    pub closed spec fn view(&self) -> Seq<CheckSpec> {
        self.checks@
    }

    /// Well-formed: no two registered checks share a name.
    pub open spec fn wf(&self) -> bool {
        forall|i: int, j: int|
            0 <= i < j < self@.len() ==> self@[i].name@ != self@[j].name@
    }

    /// Some registered check carries this name.
    pub open spec fn spec_has_name(&self, name: Seq<char>) -> bool {
        exists|i: int| 0 <= i < self@.len() && self@[i].name@ == name
    }

    /// An empty registry.
    pub fn new() -> (reg: CheckRegistry)
        ensures
            reg@ == Seq::<CheckSpec>::empty(),
            reg.wf(),
    {
        CheckRegistry { checks: Vec::new() }
    }

    /// Whether a check with this name is registered.
    pub fn has_name(&self, name: &String) -> (b: bool)
        ensures
            b == self.spec_has_name(name@),
    {
        let n: usize = self.checks.len();
        let mut i: usize = 0;
        while i < n
            invariant
                n == self@.len(),
                i <= n,
                forall|k: int| 0 <= k < i ==> self@[k].name@ != name@,
            decreases n - i,
        {
            if self.checks[i].name == *name {
                return true;
            }
            i = i + 1;
        }
        false
    }

    /// Register a check. Fails with `DuplicateNameError` when the name is
    /// already taken, leaving the registry unchanged; otherwise appends the
    /// check at the end of the registration order.
    pub fn register(&mut self, name: String, timeout_ms: u64, critical: bool) -> (r: Result<
        (),
        DuplicateNameError,
    >)
        requires
            old(self).wf(),
        ensures
            final(self).wf(),
            match r {
                Ok(()) => !old(self).spec_has_name(name@) && final(self)@ == old(self)@.push(
                    CheckSpec { name, timeout_ms, critical },
                ),
                Err(e) => e == DuplicateNameError && old(self).spec_has_name(name@)
                    && final(self)@ == old(self)@,
            },
    {
        if self.has_name(&name) {
            return Err(DuplicateNameError);
        }
        let ghost pre = self@;
        self.checks.push(CheckSpec { name, timeout_ms, critical });
        proof {
            assert(forall|i: int| 0 <= i < pre.len() ==> self@[i] == pre[i]);
        }
        Ok(())
    }

    /// The registered checks, in registration order.
    pub fn list(&self) -> (r: &Vec<CheckSpec>)
        ensures
            r@ == self@,
    {
        &self.checks
    }

    /// How many checks are registered.
    pub fn len(&self) -> (n: usize)
        ensures
            n == self@.len(),
    {
        self.checks.len()
    }
}

} // verus!

//! The semantic model: a pure lookup from identifier references to their
//! declaring constructs.
//!
//! Resolution is total: every lookup yields `Some` declaration or `None`,
//! never a partial or ambiguous answer. A reference resolves to at most one
//! binding; where the model holds several entries under one reference id,
//! the first entry is the binding.

use vstd::prelude::*;

use crate::ast::Declaration;

verus! {

/// One resolved binding: a reference id and the declaration it names.
#[derive(Debug, PartialEq, Eq)]
pub struct BindingEntry {
    pub reference: u64,
    pub declaration: Declaration,
}

/// The read-only semantic model handed to one rule evaluation.
#[derive(Debug, PartialEq, Eq)]
pub struct SemanticModel {
    pub bindings: Vec<BindingEntry>,
}

/// What a lookup of `reference` among `entries` yields: the declaration of
/// the first entry bound to that id, or `None` when no entry is.
pub open spec fn spec_resolve(entries: Seq<BindingEntry>, reference: u64) -> Option<Declaration>
    decreases entries.len(),
{
    if entries.len() == 0 {
        None
    } else if entries[0].reference == reference {
        Some(entries[0].declaration)
    } else {
        spec_resolve(entries.drop_first(), reference)
    }
}

impl SemanticModel {
    /// Resolve an identifier reference to its declaring construct, or `None`
    /// when the reference has no binding.
    pub fn resolve(&self, reference: u64) -> (r: Option<&Declaration>)
        ensures
            match r {
                Some(d) => spec_resolve(self.bindings@, reference) == Some(*d),
                None => spec_resolve(self.bindings@, reference) is None,
            },
    {
        let n = self.bindings.len();
        let mut i: usize = 0;
        proof {
            assert(self.bindings@.skip(0) =~= self.bindings@);
        }
        while i < n
            invariant
                i <= n,
                n == self.bindings@.len(),
                spec_resolve(self.bindings@.skip(i as int), reference) == spec_resolve(
                    self.bindings@,
                    reference,
                ),
            decreases n - i,
        {
            if self.bindings[i].reference == reference {
                assert(self.bindings@.skip(i as int)[0] == self.bindings@[i as int]);
                return Some(&self.bindings[i].declaration);
            }
            proof {
                assert(self.bindings@.skip(i as int).drop_first() =~= self.bindings@.skip(
                    i as int + 1,
                ));
            }
            i = i + 1;
        }
        proof {
            assert(self.bindings@.skip(n as int) =~= Seq::<BindingEntry>::empty());
        }
        None
    }
}

} // verus!

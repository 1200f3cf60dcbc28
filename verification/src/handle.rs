//! The handle to the overridden function: empty at first, settled by
//! the first resolution, and never changed after that.
use vstd::prelude::*;

verus! {

/// The handle of one override.
#[derive(Debug, Clone, Copy, PartialEq, Eq)]
pub enum SymbolHandle {
    /// Nothing was resolved yet.
    Unresolved,
    /// The symbol was found at this address.
    Resolved(usize),
    /// The resolution failed. There is no way back from here.
    Poisoned,
}

/// What a caller that wants the overridden function has to do.
#[derive(Debug, Clone, Copy, PartialEq, Eq)]
pub enum Access {
    /// Resolve the symbol and settle the handle with the outcome.
    Resolve,
    /// Use this address.
    Ready(usize),
    /// Give up: the resolution has failed.
    Failed,
}

impl SymbolHandle {
    /// What the handle asks of a caller.
    pub open spec fn spec_access(self) -> Access {
        match self {
            SymbolHandle::Unresolved => Access::Resolve,
            SymbolHandle::Resolved(address) => Access::Ready(address),
            SymbolHandle::Poisoned => Access::Failed,
        }
    }

    /// The handle after a resolution that gave `outcome` (the address, or
    /// nothing where it failed): an empty handle takes the outcome, a
    /// settled one stays as it is.
    pub open spec fn spec_settle(self, outcome: Option<usize>) -> SymbolHandle {
        match self {
            SymbolHandle::Unresolved => match outcome {
                Some(address) => SymbolHandle::Resolved(address),
                None => SymbolHandle::Poisoned,
            },
            _ => self,
        }
    }

    /// The handle after one call of the override: the call resolves the
    /// symbol, with `outcome`, only if the handle asks for it.
    pub open spec fn after_call(self, outcome: Option<usize>) -> SymbolHandle {
        if self.spec_access() is Resolve {
            self.spec_settle(outcome)
        } else {
            self
        }
    }

    /// The handle after a series of calls, the `i`-th of which would get
    /// `outcomes[i]` if it resolved the symbol.
    pub open spec fn after_calls(self, outcomes: Seq<Option<usize>>) -> SymbolHandle
        decreases outcomes.len(),
    {
        if outcomes.len() == 0 {
            self
        } else {
            self.after_calls(outcomes.drop_last()).after_call(outcomes.last())
        }
    }

    /// How many of a series of calls resolve the symbol.
    pub open spec fn resolutions(self, outcomes: Seq<Option<usize>>) -> nat
        decreases outcomes.len(),
    {
        if outcomes.len() == 0 {
            0
        } else {
            let before = self.after_calls(outcomes.drop_last());
            self.resolutions(outcomes.drop_last()) + if before.spec_access() is Resolve {
                1nat
            } else {
                0nat
            }
        }
    }

    /// An empty handle.
    pub fn new() -> (handle: SymbolHandle)
        ensures
            handle is Unresolved,
    {
        SymbolHandle::Unresolved
    }

    /// What the handle asks of a caller.
    pub fn access(&self) -> (access: Access)
        ensures
            access == self.spec_access(),
    {
        match self {
            SymbolHandle::Unresolved => Access::Resolve,
            SymbolHandle::Resolved(address) => Access::Ready(*address),
            SymbolHandle::Poisoned => Access::Failed,
        }
    }

    /// Settles the handle with the outcome of a resolution: the address, or
    /// nothing where it failed. The first outcome stays; a later one is
    /// dropped.
    pub fn settle(&mut self, outcome: Option<usize>)
        ensures
            *final(self) == old(self).spec_settle(outcome),
    {
        match self {
            SymbolHandle::Unresolved => {
                *self = match outcome {
                    Some(address) => SymbolHandle::Resolved(address),
                    None => SymbolHandle::Poisoned,
                };
            },
            _ => {},
        }
    }
}

/// A settled handle stays as it is, whatever is done with it, and never asks
/// for a resolution again.
pub proof fn lemma_settled_handle_is_final(handle: SymbolHandle, outcome: Option<usize>)
    requires
        !(handle is Unresolved),
    ensures
        handle.spec_settle(outcome) == handle,
        handle.after_call(outcome) == handle,
        !(handle.spec_access() is Resolve),
{
}

/// However many calls are made on an empty handle, exactly one of them
/// resolves the symbol: the first. The handle holds its outcome from then
/// on, so every call gets the same address, or the same failure.
pub proof fn lemma_one_resolution(outcomes: Seq<Option<usize>>)
    requires
        outcomes.len() >= 1,
    ensures
        SymbolHandle::Unresolved.resolutions(outcomes) == 1,
        SymbolHandle::Unresolved.after_calls(outcomes) == SymbolHandle::Unresolved.spec_settle(
            outcomes[0],
        ),
        outcomes[0] matches Some(address) ==> SymbolHandle::Unresolved.after_calls(
            outcomes,
        ).spec_access() == Access::Ready(address),
        outcomes[0] is None ==> SymbolHandle::Unresolved.after_calls(outcomes).spec_access()
            is Failed,
    decreases outcomes.len(),
{
    let empty = SymbolHandle::Unresolved;
    let before = outcomes.drop_last();
    if before.len() == 0 {
        assert(empty.resolutions(before) == 0);
    } else {
        lemma_one_resolution(before);
    }
}

} // verus!

use vstd::prelude::*;
use crate::input::Input;
use crate::registry::LeafKind;
use crate::error::DeError;
use crate::value::{Dynamic, DynV, Leaf, decode_leaf, leaf_of};

verus! {

/// An override that preempts all built-in dispatch for the chosen types: a
/// value of one of `targets` is read with the leaf codec `as_leaf` (a handle
/// that is written as a path string, say) whatever its registration says.
#[derive(Debug, Clone, PartialEq)]
pub struct ReflectDeserializerProcessor {
    pub targets: Vec<usize>,
    pub as_leaf: LeafKind,
}

/// The model of a reconstruction result.
pub open spec fn res_model(r: Result<Dynamic, DeError>) -> Result<DynV, DeError> {
    match r {
        Ok(v) => Ok(v.model()),
        Err(e) => Err(e),
    }
}

/// A leaf codec's result as a dynamic value.
pub open spec fn leaf_res(r: Result<Leaf, DeError>) -> Result<DynV, DeError> {
    match r {
        Ok(l) => Ok(DynV::Leaf(l)),
        Err(e) => Err(e),
    }
}

/// A caller-supplied override of the built-in dispatch. `can_deserialize`
/// decides which types it takes over; `deserialize` reads a value of such a
/// type and must consume the whole input value it is given.
pub trait DeserializeProcessor {
    /// Whether this processor takes over values of type `id`.
    spec fn handles(&self, id: usize) -> bool;

    /// What this processor reads from `input` as a value of type `id`.
    spec fn handled(&self, id: usize, input: Input) -> Result<DynV, DeError>;

    fn can_deserialize(&self, id: usize) -> (r: bool)
        ensures
            r == self.handles(id),
    ;

    fn deserialize(&self, id: usize, input: &Input) -> (r: Result<Dynamic, DeError>)
        ensures
            res_model(r) == self.handled(id, *input),
    ;
}

impl ReflectDeserializerProcessor {
    pub fn new(targets: Vec<usize>, as_leaf: LeafKind) -> (r: ReflectDeserializerProcessor)
        ensures
            r.targets@ == targets@,
            r.as_leaf == as_leaf,
    {
        ReflectDeserializerProcessor { targets, as_leaf }
    }
}

impl DeserializeProcessor for ReflectDeserializerProcessor {
    open spec fn handles(&self, id: usize) -> bool {
        self.targets@.contains(id)
    }

    open spec fn handled(&self, id: usize, input: Input) -> Result<DynV, DeError> {
        leaf_res(leaf_of(self.as_leaf, input))
    }

    /// Whether this processor takes over values of type `id`.
    fn can_deserialize(&self, id: usize) -> (r: bool)
    {
        let mut i: usize = 0;
        while i < self.targets.len()
            invariant
                i <= self.targets.len(),
                forall|j: int| 0 <= j < i ==> self.targets@[j] != id,
            decreases self.targets.len() - i,
        {
            if self.targets[i] == id {
                return true;
            }
            i += 1;
        }
        false
    }

    /// Reads one value in place of the built-in dispatch; the whole input
    /// value is consumed.
    fn deserialize(&self, id: usize, input: &Input) -> (r: Result<Dynamic, DeError>)
    {
        match decode_leaf(self.as_leaf, input) {
            Ok(l) => Ok(Dynamic::Leaf(l)),
            Err(e) => Err(e),
        }
    }
}

} // verus!

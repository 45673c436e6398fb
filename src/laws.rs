use vstd::prelude::*;
use crate::input::Input;
use crate::registry::{TypeRegistration, TypeInfo};
use crate::error::DeError;
use crate::value::{DynV, Leaf, encode_leaf, kind_of, leaf_of, tag_of};
use crate::processor::DeserializeProcessor;
use crate::decode::{decode, shape, enum_body, tuple_body, untyped, MAX_DEPTH};
use crate::value::tagged;

verus! {

/// Whether no processor takes over values of type `id`.
pub open spec fn unclaimed<P: DeserializeProcessor>(p: Option<&P>, id: usize) -> bool {
    !(p is Some && p->Some_0.handles(id))
}

/// Whether the registration of `id` is read by its structural shape alone.
pub open spec fn structural(types: Seq<TypeRegistration>, id: usize) -> bool {
    &&& id < types.len()
    &&& !(types[id as int].info is Opaque)
    &&& types[id as int].deserialize is None
    &&& types[id as int].deserialize_with_registry is None
}

proof fn lemma_decode_structural<P: DeserializeProcessor>(
    types: Seq<TypeRegistration>,
    p: Option<&P>,
    id: usize,
    input: Input,
    depth: nat,
)
    requires
        structural(types, id),
        unclaimed(p, id),
        depth > 0,
    ensures
        decode(types, p, id, input, depth) == match shape(types, p, id, input, depth) {
            Ok(v) => Ok(tagged(v, id)),
            Err(e) => Err(e),
        },
{
}

proof fn lemma_shape_is_container<P: DeserializeProcessor>(
    types: Seq<TypeRegistration>,
    p: Option<&P>,
    id: usize,
    input: Input,
    depth: nat,
)
    ensures
        shape(types, p, id, input, depth) matches Ok(v) ==> !(v is Leaf),
{
    if depth > 0 && id < types.len() {
        if let TypeInfo::Enum(vs, o) = types[id as int].info {
            assert(enum_body(types, p, vs@, o, input, (depth - 1) as nat) matches Ok(v) ==> v is Enum);
        }
    }
}

/// A leaf written by its symmetric encoder reads back as itself through a
/// registration whose plain strategy is that leaf's codec.
pub proof fn lemma_leaf_round_trip<P: DeserializeProcessor>(
    types: Seq<TypeRegistration>,
    p: Option<&P>,
    id: usize,
    l: Leaf,
)
    requires
        id < types.len(),
        types[id as int].deserialize == Some(kind_of(l)),
        unclaimed(p, id),
    ensures
        leaf_of(kind_of(l), encode_leaf(l)) == Ok::<Leaf, DeError>(l),
        decode(types, p, id, encode_leaf(l), MAX_DEPTH as nat) == Ok::<DynV, DeError>(DynV::Leaf(l)),
{
}

/// A value read through a structural registration carries that
/// registration as its represented type.
pub proof fn lemma_structural_result_tagged<P: DeserializeProcessor>(
    types: Seq<TypeRegistration>,
    p: Option<&P>,
    id: usize,
    input: Input,
    depth: nat,
)
    requires
        structural(types, id),
        unclaimed(p, id),
    ensures
        decode(types, p, id, input, depth) matches Ok(v) ==> tag_of(v) == Some(id),
{
    if depth > 0 {
        lemma_decode_structural(types, p, id, input, depth);
        lemma_shape_is_container(types, p, id, input, depth);
    }
}

/// A one-field tuple struct without the skip-defaults hint reads the bare
/// inner value (the newtype shape).
pub proof fn lemma_newtype_shape<P: DeserializeProcessor>(
    types: Seq<TypeRegistration>,
    p: Option<&P>,
    id: usize,
    input: Input,
    depth: nat,
)
    requires
        structural(types, id),
        unclaimed(p, id),
        types[id as int].info matches TypeInfo::TupleStruct(tys) && tys@.len() == 1,
        !types[id as int].skip_defaults,
        depth > 0,
    ensures
        decode(types, p, id, input, depth) == match decode(types, p, types[id as int].info->TupleStruct_0@[0], input, (depth - 1) as nat) {
            Ok(v) => Ok(DynV::TupleStruct(Some(id), seq![v])),
            Err(e) => Err(e),
        },
{
    lemma_decode_structural(types, p, id, input, depth);
}

/// With the skip-defaults hint a one-field tuple struct reads the tuple
/// shape: a sequence of exactly one value.
pub proof fn lemma_skip_defaults_tuple_shape<P: DeserializeProcessor>(
    types: Seq<TypeRegistration>,
    p: Option<&P>,
    id: usize,
    input: Input,
    depth: nat,
)
    requires
        structural(types, id),
        unclaimed(p, id),
        types[id as int].info matches TypeInfo::TupleStruct(tys) && tys@.len() == 1,
        types[id as int].skip_defaults,
        depth > 0,
    ensures
        decode(types, p, id, input, depth) == match tuple_body(types, p, types[id as int].info->TupleStruct_0@, input, (depth - 1) as nat) {
            Ok(v) => Ok(DynV::TupleStruct(Some(id), v)),
            Err(e) => Err(e),
        },
        !(input is Sequence) ==> decode(types, p, id, input, depth) == Err::<DynV, DeError>(DeError::InvalidType),
{
    lemma_decode_structural(types, p, id, input, depth);
}

/// An outer mapping with no entry or with more than one fails with a
/// length mismatch and yields no value.
pub proof fn lemma_untyped_entry_count<P: DeserializeProcessor>(
    types: Seq<TypeRegistration>,
    p: Option<&P>,
    es: Vec<(Input, Input)>,
)
    requires
        es@.len() != 1,
    ensures
        untyped(types, p, Input::Mapping(es)) == Err::<DynV, DeError>(DeError::InvalidLength(es@.len() as usize)),
{
}

/// An array of declared capacity `cap` refuses a sequence of another length.
pub proof fn lemma_array_capacity<P: DeserializeProcessor>(
    types: Seq<TypeRegistration>,
    p: Option<&P>,
    id: usize,
    xs: Vec<Input>,
    depth: nat,
)
    requires
        structural(types, id),
        unclaimed(p, id),
        types[id as int].info matches TypeInfo::Array(_, cap) && xs@.len() != cap,
        depth > 0,
    ensures
        decode(types, p, id, Input::Sequence(xs), depth) == Err::<DynV, DeError>(DeError::InvalidLength(xs@.len() as usize)),
{
    lemma_decode_structural(types, p, id, Input::Sequence(xs), depth);
}

/// A processor that takes over type `id` decides every value of that type,
/// whatever strategies its registration carries.
pub proof fn lemma_processor_precedence<P: DeserializeProcessor>(
    types: Seq<TypeRegistration>,
    q: &P,
    id: usize,
    input: Input,
    depth: nat,
)
    requires
        id < types.len(),
        q.handles(id),
        depth > 0,
    ensures
        decode(types, Some(q), id, input, depth) == q.handled(id, input),
{
}

} // verus!

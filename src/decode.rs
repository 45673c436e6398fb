use vstd::prelude::*;
use crate::input::Input;
use crate::registry::{TypeRegistration, TypeInfo, VariantShape, VariantInfo, NamedField, find_field, find_variant, find_path};
use crate::error::DeError;
use crate::value::{DynV, VariantKind, leaf_of, tagged};
use crate::processor::{DeserializeProcessor, leaf_res};

verus! {

/// The nesting depth that the engine follows before it gives up.
pub const MAX_DEPTH: usize = 128;

/// The result of reading `input` as a value of type `id`, with `depth` levels
/// of nesting left. The first matching strategy wins: the processor, the
/// plain strategy, the registry-aware strategy, then the structural shape,
/// whose result is tagged with `id`.
pub open spec fn decode<P: DeserializeProcessor>(
    types: Seq<TypeRegistration>,
    p: Option<&P>,
    id: usize,
    input: Input,
    depth: nat,
) -> Result<DynV, DeError>
    decreases depth, 2nat, 0int,
{
    if depth == 0 {
        Err(DeError::RecursionLimit)
    } else if id >= types.len() {
        Err(DeError::UnknownTypeId(id))
    } else if p is Some && p->Some_0.handles(id) {
        p->Some_0.handled(id, input)
    } else {
        match types[id as int].deserialize {
            Some(k) => leaf_res(leaf_of(k, input)),
            None => match types[id as int].deserialize_with_registry {
                Some(proxy) => decode(types, p, proxy, input, (depth - 1) as nat),
                None => match shape(types, p, id, input, depth) {
                    Ok(v) => Ok(tagged(v, id)),
                    Err(e) => Err(e),
                },
            },
        }
    }
}

/// The type of the element at position `j`: `same` where all elements share
/// one type, else the `j`-th of `tys`.
pub open spec fn elem_ty(tys: Seq<usize>, same: Option<usize>, j: int) -> usize {
    match same {
        Some(t) => t,
        None => tys[j],
    }
}

/// The first `n` elements of a homogeneous or positional sequence, read in
/// order; the first failure is the result.
pub open spec fn items<P: DeserializeProcessor>(
    types: Seq<TypeRegistration>,
    p: Option<&P>,
    tys: Seq<usize>,
    same: Option<usize>,
    xs: Seq<Input>,
    n: int,
    d: nat,
) -> Result<Seq<DynV>, DeError>
    decreases d, 3nat, n,
{
    if n <= 0 {
        Ok(Seq::empty())
    } else {
        match items(types, p, tys, same, xs, n - 1, d) {
            Err(e) => Err(e),
            Ok(s) => match decode(types, p, elem_ty(tys, same, n - 1), xs[n - 1], d) {
                Err(e) => Err(e),
                Ok(v) => Ok(s.push(v)),
            },
        }
    }
}

/// Whether one of `names` has the text `name`.
pub open spec fn has_name(names: Seq<String>, name: Seq<char>) -> bool {
    exists|j: int| 0 <= j < names.len() && names[j]@ == name
}

/// The first `n` entries of a named-field aggregate, read in order: each key
/// names a declared field, at most once, and its value is read as that
/// field's type.
pub open spec fn fields<P: DeserializeProcessor>(
    types: Seq<TypeRegistration>,
    p: Option<&P>,
    decl: Seq<NamedField>,
    es: Seq<(Input, Input)>,
    n: int,
    d: nat,
) -> Result<(Seq<String>, Seq<DynV>), DeError>
    decreases d, 3nat, n,
{
    if n <= 0 {
        Ok((Seq::empty(), Seq::empty()))
    } else {
        match fields(types, p, decl, es, n - 1, d) {
            Err(e) => Err(e),
            Ok((names, vals)) => match es[n - 1].0 {
                Input::Str(name) => match find_field(decl, name@, 0) {
                    None => Err(DeError::UnknownField(name)),
                    Some(j) => if has_name(names, name@) {
                        Err(DeError::DuplicateField(name))
                    } else {
                        match decode(types, p, decl[j].ty, es[n - 1].1, d) {
                            Err(e) => Err(e),
                            Ok(v) => Ok((names.push(name), vals.push(v))),
                        }
                    },
                },
                _ => Err(DeError::InvalidType),
            },
        }
    }
}

/// The first `n` entries of a map, each key then its value read in order.
pub open spec fn entries<P: DeserializeProcessor>(
    types: Seq<TypeRegistration>,
    p: Option<&P>,
    kt: usize,
    vt: usize,
    es: Seq<(Input, Input)>,
    n: int,
    d: nat,
) -> Result<(Seq<DynV>, Seq<DynV>), DeError>
    decreases d, 3nat, n,
{
    if n <= 0 {
        Ok((Seq::empty(), Seq::empty()))
    } else {
        match entries(types, p, kt, vt, es, n - 1, d) {
            Err(e) => Err(e),
            Ok((ks, vs)) => match decode(types, p, kt, es[n - 1].0, d) {
                Err(e) => Err(e),
                Ok(k) => match decode(types, p, vt, es[n - 1].1, d) {
                    Err(e) => Err(e),
                    Ok(v) => Ok((ks.push(k), vs.push(v))),
                },
            },
        }
    }
}

/// A named-field aggregate: every declared field present exactly once.
pub open spec fn struct_body<P: DeserializeProcessor>(
    types: Seq<TypeRegistration>,
    p: Option<&P>,
    decl: Seq<NamedField>,
    input: Input,
    d: nat,
) -> Result<(Seq<String>, Seq<DynV>), DeError>
    decreases d, 4nat, 0int,
{
    match input {
        Input::Mapping(es) => match fields(types, p, decl, es@, es@.len() as int, d) {
            Err(e) => Err(e),
            Ok(r) => if es@.len() == decl.len() {
                Ok(r)
            } else {
                Err(DeError::InvalidLength(es@.len() as usize))
            },
        },
        _ => Err(DeError::InvalidType),
    }
}

/// A positional sequence of exactly `tys.len()` values.
pub open spec fn tuple_body<P: DeserializeProcessor>(
    types: Seq<TypeRegistration>,
    p: Option<&P>,
    tys: Seq<usize>,
    input: Input,
    d: nat,
) -> Result<Seq<DynV>, DeError>
    decreases d, 4nat, 0int,
{
    match input {
        Input::Sequence(xs) => if xs@.len() != tys.len() {
            Err(DeError::InvalidLength(xs@.len() as usize))
        } else {
            items(types, p, tys, None, xs@, xs@.len() as int, d)
        },
        _ => Err(DeError::InvalidType),
    }
}

/// A sequence of values of one type, of any length, or of exactly `len`.
pub open spec fn seq_body<P: DeserializeProcessor>(
    types: Seq<TypeRegistration>,
    p: Option<&P>,
    t: usize,
    len: Option<usize>,
    input: Input,
    d: nat,
) -> Result<Seq<DynV>, DeError>
    decreases d, 4nat, 0int,
{
    match input {
        Input::Sequence(xs) => if len matches Some(c) && xs@.len() != c {
            Err(DeError::InvalidLength(xs@.len() as usize))
        } else {
            items(types, p, Seq::empty(), Some(t), xs@, xs@.len() as int, d)
        },
        _ => Err(DeError::InvalidType),
    }
}

/// Whether the variants have the layout of the built-in optional type.
pub open spec fn option_layout(vs: Seq<VariantInfo>) -> bool {
    vs.len() == 2 && vs[0].shape is Unit && (vs[1].shape matches VariantShape::Tuple(t) && t@.len() == 1)
}

/// A tagged union: a variant name and the payload its layout asks for; for
/// the built-in optional type, an absent or present value.
pub open spec fn enum_body<P: DeserializeProcessor>(
    types: Seq<TypeRegistration>,
    p: Option<&P>,
    vs: Seq<VariantInfo>,
    is_option: bool,
    input: Input,
    d: nat,
) -> Result<DynV, DeError>
    decreases d, 5nat, 0int,
{
    if is_option {
        if !option_layout(vs) {
            Err(DeError::InvalidType)
        } else {
            match input {
                Input::Absent => Ok(DynV::Enum(None, vs[0].name, VariantKind::Unit, Seq::empty(), Seq::empty())),
                Input::Present(x) => match decode(types, p, vs[1].shape->Tuple_0@[0], *x, d) {
                    Err(e) => Err(e),
                    Ok(v) => Ok(DynV::Enum(None, vs[1].name, VariantKind::Tuple, Seq::empty(), seq![v])),
                },
                _ => Err(DeError::InvalidType),
            }
        }
    } else {
        match input {
            Input::Variant(name, payload) => match find_variant(vs, name@, 0) {
                None => Err(DeError::UnknownVariant(name)),
                Some(j) => match vs[j].shape {
                    VariantShape::Unit => match *payload {
                        Input::Unit => Ok(DynV::Enum(None, name, VariantKind::Unit, Seq::empty(), Seq::empty())),
                        _ => Err(DeError::InvalidType),
                    },
                    VariantShape::Tuple(tys) => match tuple_body(types, p, tys@, *payload, d) {
                        Err(e) => Err(e),
                        Ok(v) => Ok(DynV::Enum(None, name, VariantKind::Tuple, Seq::empty(), v)),
                    },
                    VariantShape::Struct(decl) => match struct_body(types, p, decl@, *payload, d) {
                        Err(e) => Err(e),
                        Ok((n, v)) => Ok(DynV::Enum(None, name, VariantKind::Struct, n, v)),
                    },
                },
            },
            _ => Err(DeError::InvalidType),
        }
    }
}

/// Structural reconstruction by the descriptor's kind, untagged. One-field
/// tuple structs without the skip-defaults hint read the bare inner value.
pub open spec fn shape<P: DeserializeProcessor>(
    types: Seq<TypeRegistration>,
    p: Option<&P>,
    id: usize,
    input: Input,
    depth: nat,
) -> Result<DynV, DeError>
    decreases depth, 1nat, 0int,
{
    if depth == 0 || id >= types.len() {
        Err(DeError::RecursionLimit)
    } else {
        let d = (depth - 1) as nat;
        let reg = types[id as int];
        match reg.info {
            TypeInfo::Opaque => Err(DeError::MissingStrategy(reg.path)),
            TypeInfo::Struct(decl) => match struct_body(types, p, decl@, input, d) {
                Err(e) => Err(e),
                Ok((n, v)) => Ok(DynV::Struct(None, n, v)),
            },
            TypeInfo::TupleStruct(tys) => if tys@.len() == 1 && !reg.skip_defaults {
                match decode(types, p, tys@[0], input, d) {
                    Err(e) => Err(e),
                    Ok(v) => Ok(DynV::TupleStruct(None, seq![v])),
                }
            } else {
                match tuple_body(types, p, tys@, input, d) {
                    Err(e) => Err(e),
                    Ok(v) => Ok(DynV::TupleStruct(None, v)),
                }
            },
            TypeInfo::Tuple(tys) => match tuple_body(types, p, tys@, input, d) {
                Err(e) => Err(e),
                Ok(v) => Ok(DynV::Tuple(None, v)),
            },
            TypeInfo::List(t) => match seq_body(types, p, t, None, input, d) {
                Err(e) => Err(e),
                Ok(v) => Ok(DynV::List(None, v)),
            },
            TypeInfo::Array(t, cap) => match seq_body(types, p, t, Some(cap), input, d) {
                Err(e) => Err(e),
                Ok(v) => Ok(DynV::Array(None, v)),
            },
            TypeInfo::MapOf(kt, vt) => match input {
                Input::Mapping(es) => match entries(types, p, kt, vt, es@, es@.len() as int, d) {
                    Err(e) => Err(e),
                    Ok((ks, vs)) => Ok(DynV::MapOf(None, ks, vs)),
                },
                _ => Err(DeError::InvalidType),
            },
            TypeInfo::SetOf(t) => match seq_body(types, p, t, None, input, d) {
                Err(e) => Err(e),
                Ok(v) => Ok(DynV::SetOf(None, v)),
            },
            TypeInfo::Enum(vs, is_option) => enum_body(types, p, vs@, is_option, input, d),
        }
    }
}

/// The result of reading an untyped value: a mapping with exactly one entry,
/// whose key is the full path of a registered type and whose value is read
/// as that type.
pub open spec fn untyped<P: DeserializeProcessor>(
    types: Seq<TypeRegistration>,
    p: Option<&P>,
    input: Input,
) -> Result<DynV, DeError> {
    match input {
        Input::Mapping(es) => if es@.len() != 1 {
            Err(DeError::InvalidLength(es@.len() as usize))
        } else {
            match es@[0].0 {
                Input::Str(path) => match find_path(types, path@, 0) {
                    None => Err(DeError::UnknownType(path)),
                    Some(id) => decode(types, p, id, es@[0].1, MAX_DEPTH as nat),
                },
                _ => Err(DeError::InvalidType),
            }
        },
        _ => Err(DeError::InvalidType),
    }
}

} // verus!

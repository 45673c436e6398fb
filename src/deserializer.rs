use vstd::prelude::*;
use crate::input::Input;
use crate::registry::{find_path, TypeRegistry, TypeInfo, VariantShape, VariantInfo, NamedField, find_field_index, find_variant_index};
use crate::error::DeError;
use crate::value::{Dynamic, DynV, VariantKind, models};
use crate::processor::{DeserializeProcessor, ReflectDeserializerProcessor, res_model};
use crate::decode::{
    decode, shape, items, fields, entries, struct_body, tuple_body, seq_body, enum_body,
    option_layout, has_name, untyped, MAX_DEPTH,
};

verus! {

pub open spec fn vec_res(r: Result<Vec<Dynamic>, DeError>) -> Result<Seq<DynV>, DeError> {
    match r {
        Ok(v) => Ok(models(v@)),
        Err(e) => Err(e),
    }
}

pub open spec fn named_res(r: Result<(Vec<String>, Vec<Dynamic>), DeError>) -> Result<(Seq<String>, Seq<DynV>), DeError> {
    match r {
        Ok((n, v)) => Ok((n@, models(v@))),
        Err(e) => Err(e),
    }
}

pub open spec fn pairs_res(r: Result<(Vec<Dynamic>, Vec<Dynamic>), DeError>) -> Result<(Seq<DynV>, Seq<DynV>), DeError> {
    match r {
        Ok((k, v)) => Ok((models(k@), models(v@))),
        Err(e) => Err(e),
    }
}

proof fn lemma_models_push(v: Seq<Dynamic>, x: Dynamic)
    ensures
        models(v.push(x)) == models(v).push(x.model()),
{
    assert(models(v.push(x)) =~= models(v).push(x.model()));
}

proof fn lemma_models_one(x: Dynamic)
    ensures
        models(seq![x]) == seq![x.model()],
{
    assert(models(seq![x]) =~= seq![x.model()]);
}

proof fn lemma_items_err<P: DeserializeProcessor>(
    types: Seq<crate::registry::TypeRegistration>,
    p: Option<&P>,
    tys: Seq<usize>,
    same: Option<usize>,
    xs: Seq<Input>,
    n: int,
    m: int,
    d: nat,
)
    requires
        0 <= n <= m,
        items(types, p, tys, same, xs, n, d) is Err,
    ensures
        items(types, p, tys, same, xs, m, d) == items(types, p, tys, same, xs, n, d),
    decreases m,
{
    if m > n {
        lemma_items_err(types, p, tys, same, xs, n, m - 1, d);
    }
}

proof fn lemma_fields_err<P: DeserializeProcessor>(
    types: Seq<crate::registry::TypeRegistration>,
    p: Option<&P>,
    decl: Seq<NamedField>,
    es: Seq<(Input, Input)>,
    n: int,
    m: int,
    d: nat,
)
    requires
        0 <= n <= m,
        fields(types, p, decl, es, n, d) is Err,
    ensures
        fields(types, p, decl, es, m, d) == fields(types, p, decl, es, n, d),
    decreases m,
{
    if m > n {
        lemma_fields_err(types, p, decl, es, n, m - 1, d);
    }
}

proof fn lemma_entries_err<P: DeserializeProcessor>(
    types: Seq<crate::registry::TypeRegistration>,
    p: Option<&P>,
    kt: usize,
    vt: usize,
    es: Seq<(Input, Input)>,
    n: int,
    m: int,
    d: nat,
)
    requires
        0 <= n <= m,
        entries(types, p, kt, vt, es, n, d) is Err,
    ensures
        entries(types, p, kt, vt, es, m, d) == entries(types, p, kt, vt, es, n, d),
    decreases m,
{
    if m > n {
        lemma_entries_err(types, p, kt, vt, es, n, m - 1, d);
    }
}

fn contains_name(names: &Vec<String>, name: &String) -> (r: bool)
    ensures
        r == has_name(names@, name@),
{
    let mut i: usize = 0;
    while i < names.len()
        invariant
            i <= names.len(),
            forall|j: int| 0 <= j < i ==> names@[j]@ != name@,
        decreases names.len() - i,
    {
        if names[i] == *name {
            return true;
        }
        i += 1;
    }
    false
}

/// Reads the elements of a sequence in order, element `j` as type
/// `same` or, where that is `None`, as `tys[j]`.
fn decode_items<P: DeserializeProcessor>(
    reg: &TypeRegistry,
    p: Option<&P>,
    tys: &Vec<usize>,
    same: Option<usize>,
    xs: &Vec<Input>,
    d: usize,
) -> (r: Result<Vec<Dynamic>, DeError>)
    requires
        same is None ==> tys@.len() >= xs@.len(),
    ensures
        vec_res(r) == items(reg.types@, p, tys@, same, xs@, xs@.len() as int, d as nat),
    decreases d, 3nat, 0int,
{
    let mut out: Vec<Dynamic> = Vec::new();
    let mut i: usize = 0;
    proof {
        assert(models(out@) =~= Seq::<DynV>::empty());
    }
    while i < xs.len()
        invariant
            i <= xs@.len(),
            same is None ==> tys@.len() >= xs@.len(),
            items(reg.types@, p, tys@, same, xs@, i as int, d as nat) == Ok::<Seq<DynV>, DeError>(models(out@)),
        decreases xs.len() - i,
    {
        let t: usize = match same {
            Some(t) => t,
            None => tys[i],
        };
        match deserialize_value(reg, p, t, &xs[i], d) {
            Err(e) => {
                proof {
                    lemma_items_err(reg.types@, p, tys@, same, xs@, i + 1, xs@.len() as int, d as nat);
                }
                return Err(e);
            },
            Ok(v) => {
                proof {
                    lemma_models_push(out@, v);
                }
                out.push(v);
            },
        }
        i += 1;
    }
    Ok(out)
}

/// Reads the entries of a named-field aggregate in order.
fn decode_fields<P: DeserializeProcessor>(
    reg: &TypeRegistry,
    p: Option<&P>,
    decl: &Vec<NamedField>,
    es: &Vec<(Input, Input)>,
    d: usize,
) -> (r: Result<(Vec<String>, Vec<Dynamic>), DeError>)
    ensures
        named_res(r) == fields(reg.types@, p, decl@, es@, es@.len() as int, d as nat),
    decreases d, 3nat, 0int,
{
    let mut names: Vec<String> = Vec::new();
    let mut vals: Vec<Dynamic> = Vec::new();
    let mut i: usize = 0;
    proof {
        assert(models(vals@) =~= Seq::<DynV>::empty());
        assert(names@ =~= Seq::<String>::empty());
    }
    while i < es.len()
        invariant
            i <= es@.len(),
            fields(reg.types@, p, decl@, es@, i as int, d as nat)
                == Ok::<(Seq<String>, Seq<DynV>), DeError>((names@, models(vals@))),
        decreases es.len() - i,
    {
        let entry = &es[i];
        let failed: DeError;
        match &entry.0 {
            Input::Str(name) => match find_field_index(decl, name) {
                None => {
                    failed = DeError::UnknownField(name.clone());
                },
                Some(j) => {
                    if contains_name(&names, name) {
                        failed = DeError::DuplicateField(name.clone());
                    } else {
                        match deserialize_value(reg, p, decl[j].ty, &entry.1, d) {
                            Err(e) => {
                                failed = e;
                            },
                            Ok(v) => {
                                proof {
                                    lemma_models_push(vals@, v);
                                }
                                names.push(name.clone());
                                vals.push(v);
                                i += 1;
                                continue;
                            },
                        }
                    }
                },
            },
            _ => {
                failed = DeError::InvalidType;
            },
        }
        proof {
            assert(fields(reg.types@, p, decl@, es@, i + 1, d as nat) == Err::<(Seq<String>, Seq<DynV>), DeError>(failed));
            lemma_fields_err(reg.types@, p, decl@, es@, i + 1, es@.len() as int, d as nat);
        }
        return Err(failed);
    }
    Ok((names, vals))
}

/// Reads the entries of a map in order, each key then its value.
fn decode_entries<P: DeserializeProcessor>(
    reg: &TypeRegistry,
    p: Option<&P>,
    kt: usize,
    vt: usize,
    es: &Vec<(Input, Input)>,
    d: usize,
) -> (r: Result<(Vec<Dynamic>, Vec<Dynamic>), DeError>)
    ensures
        pairs_res(r) == entries(reg.types@, p, kt, vt, es@, es@.len() as int, d as nat),
    decreases d, 3nat, 0int,
{
    let mut ks: Vec<Dynamic> = Vec::new();
    let mut vs: Vec<Dynamic> = Vec::new();
    let mut i: usize = 0;
    proof {
        assert(models(ks@) =~= Seq::<DynV>::empty());
        assert(models(vs@) =~= Seq::<DynV>::empty());
    }
    while i < es.len()
        invariant
            i <= es@.len(),
            entries(reg.types@, p, kt, vt, es@, i as int, d as nat)
                == Ok::<(Seq<DynV>, Seq<DynV>), DeError>((models(ks@), models(vs@))),
        decreases es.len() - i,
    {
        let entry = &es[i];
        let k = match deserialize_value(reg, p, kt, &entry.0, d) {
            Err(e) => {
                proof {
                    lemma_entries_err(reg.types@, p, kt, vt, es@, i + 1, es@.len() as int, d as nat);
                }
                return Err(e);
            },
            Ok(k) => k,
        };
        let v = match deserialize_value(reg, p, vt, &entry.1, d) {
            Err(e) => {
                proof {
                    lemma_entries_err(reg.types@, p, kt, vt, es@, i + 1, es@.len() as int, d as nat);
                }
                return Err(e);
            },
            Ok(v) => v,
        };
        proof {
            lemma_models_push(ks@, k);
            lemma_models_push(vs@, v);
        }
        ks.push(k);
        vs.push(v);
        i += 1;
    }
    Ok((ks, vs))
}

/// Reads a named-field aggregate in which every declared field appears once.
fn decode_struct_body<P: DeserializeProcessor>(
    reg: &TypeRegistry,
    p: Option<&P>,
    decl: &Vec<NamedField>,
    input: &Input,
    d: usize,
) -> (r: Result<(Vec<String>, Vec<Dynamic>), DeError>)
    ensures
        named_res(r) == struct_body(reg.types@, p, decl@, *input, d as nat),
    decreases d, 4nat, 0int,
{
    match input {
        Input::Mapping(es) => {
            let r = decode_fields(reg, p, decl, es, d);
            match r {
                Err(e) => Err(e),
                Ok(nv) => if es.len() == decl.len() {
                    Ok(nv)
                } else {
                    Err(DeError::InvalidLength(es.len()))
                },
            }
        },
        _ => Err(DeError::InvalidType),
    }
}

/// Reads a positional sequence of exactly `tys.len()` values.
fn decode_tuple_body<P: DeserializeProcessor>(
    reg: &TypeRegistry,
    p: Option<&P>,
    tys: &Vec<usize>,
    input: &Input,
    d: usize,
) -> (r: Result<Vec<Dynamic>, DeError>)
    ensures
        vec_res(r) == tuple_body(reg.types@, p, tys@, *input, d as nat),
    decreases d, 4nat, 0int,
{
    match input {
        Input::Sequence(xs) => if xs.len() != tys.len() {
            Err(DeError::InvalidLength(xs.len()))
        } else {
            decode_items(reg, p, tys, None, xs, d)
        },
        _ => Err(DeError::InvalidType),
    }
}

/// Reads a sequence of values of type `t`, of exactly `len` values where
/// that is given.
fn decode_seq_body<P: DeserializeProcessor>(
    reg: &TypeRegistry,
    p: Option<&P>,
    t: usize,
    len: Option<usize>,
    input: &Input,
    d: usize,
) -> (r: Result<Vec<Dynamic>, DeError>)
    ensures
        vec_res(r) == seq_body(reg.types@, p, t, len, *input, d as nat),
    decreases d, 4nat, 0int,
{
    match input {
        Input::Sequence(xs) => {
            if let Some(c) = len {
                if xs.len() != c {
                    return Err(DeError::InvalidLength(xs.len()));
                }
            }
            let none: Vec<usize> = Vec::new();
            proof {
                assert(none@ =~= Seq::<usize>::empty());
            }
            decode_items(reg, p, &none, Some(t), xs, d)
        },
        _ => Err(DeError::InvalidType),
    }
}

/// Reads a tagged union, or for the built-in optional type an absent or
/// present value.
fn decode_enum_body<P: DeserializeProcessor>(
    reg: &TypeRegistry,
    p: Option<&P>,
    vs: &Vec<VariantInfo>,
    is_option: bool,
    input: &Input,
    d: usize,
) -> (r: Result<Dynamic, DeError>)
    ensures
        res_model(r) == enum_body(reg.types@, p, vs@, is_option, *input, d as nat),
    decreases d, 5nat, 0int,
{
    if is_option {
        if vs.len() != 2 {
            return Err(DeError::InvalidType);
        }
        let inner: usize = match (&vs[0].shape, &vs[1].shape) {
            (VariantShape::Unit, VariantShape::Tuple(t)) => if t.len() == 1 {
                t[0]
            } else {
                return Err(DeError::InvalidType);
            },
            _ => {
                return Err(DeError::InvalidType);
            },
        };
        assert(option_layout(vs@));
        match input {
            Input::Absent => {
                let n: Vec<String> = Vec::new();
                let v: Vec<Dynamic> = Vec::new();
                proof {
                    assert(models(v@) =~= Seq::<DynV>::empty());
                    assert(n@ =~= Seq::<String>::empty());
                }
                Ok(Dynamic::Enum(None, vs[0].name.clone(), VariantKind::Unit, n, v))
            },
            Input::Present(x) => match deserialize_value(reg, p, inner, x, d) {
                Err(e) => Err(e),
                Ok(v) => {
                    proof {
                        lemma_models_one(v);
                    }
                    let n: Vec<String> = Vec::new();
                    proof {
                        assert(n@ =~= Seq::<String>::empty());
                    }
                    let mut one: Vec<Dynamic> = Vec::new();
                    one.push(v);
                    proof {
                        assert(one@ =~= seq![v]);
                    }
                    Ok(Dynamic::Enum(None, vs[1].name.clone(), VariantKind::Tuple, n, one))
                },
            },
            _ => Err(DeError::InvalidType),
        }
    } else {
        match input {
            Input::Variant(name, payload) => match find_variant_index(vs, name) {
                None => Err(DeError::UnknownVariant(name.clone())),
                Some(j) => match &vs[j].shape {
                    VariantShape::Unit => match &**payload {
                        Input::Unit => {
                            let n: Vec<String> = Vec::new();
                            let v: Vec<Dynamic> = Vec::new();
                            proof {
                                assert(models(v@) =~= Seq::<DynV>::empty());
                                assert(n@ =~= Seq::<String>::empty());
                            }
                            Ok(Dynamic::Enum(None, name.clone(), VariantKind::Unit, n, v))
                        },
                        _ => Err(DeError::InvalidType),
                    },
                    VariantShape::Tuple(tys) => match decode_tuple_body(reg, p, tys, payload, d) {
                        Err(e) => Err(e),
                        Ok(v) => {
                            let n: Vec<String> = Vec::new();
                            proof {
                                assert(n@ =~= Seq::<String>::empty());
                            }
                            Ok(Dynamic::Enum(None, name.clone(), VariantKind::Tuple, n, v))
                        },
                    },
                    VariantShape::Struct(decl) => match decode_struct_body(reg, p, decl, payload, d) {
                        Err(e) => Err(e),
                        Ok((n, v)) => Ok(Dynamic::Enum(None, name.clone(), VariantKind::Struct, n, v)),
                    },
                },
            },
            _ => Err(DeError::InvalidType),
        }
    }
}

/// Structural reconstruction by the descriptor's kind; the result is not
/// tagged yet.
fn decode_shape<P: DeserializeProcessor>(
    reg: &TypeRegistry,
    p: Option<&P>,
    id: usize,
    input: &Input,
    depth: usize,
) -> (r: Result<Dynamic, DeError>)
    ensures
        res_model(r) == shape(reg.types@, p, id, *input, depth as nat),
    decreases depth, 1nat, 0int,
{
    if depth == 0 || id >= reg.types.len() {
        return Err(DeError::RecursionLimit);
    }
    let d: usize = depth - 1;
    let info = &reg.types[id].info;
    match info {
        TypeInfo::Opaque => Err(DeError::MissingStrategy(reg.types[id].path.clone())),
        TypeInfo::Struct(decl) => match decode_struct_body(reg, p, decl, input, d) {
            Err(e) => Err(e),
            Ok((n, v)) => Ok(Dynamic::Struct(None, n, v)),
        },
        TypeInfo::TupleStruct(tys) => if tys.len() == 1 && !reg.types[id].skip_defaults {
            match deserialize_value(reg, p, tys[0], input, d) {
                Err(e) => Err(e),
                Ok(v) => {
                    proof {
                        lemma_models_one(v);
                    }
                    let mut one: Vec<Dynamic> = Vec::new();
                    one.push(v);
                    proof {
                        assert(one@ =~= seq![v]);
                    }
                    Ok(Dynamic::TupleStruct(None, one))
                },
            }
        } else {
            match decode_tuple_body(reg, p, tys, input, d) {
                Err(e) => Err(e),
                Ok(v) => Ok(Dynamic::TupleStruct(None, v)),
            }
        },
        TypeInfo::Tuple(tys) => match decode_tuple_body(reg, p, tys, input, d) {
            Err(e) => Err(e),
            Ok(v) => Ok(Dynamic::Tuple(None, v)),
        },
        TypeInfo::List(t) => match decode_seq_body(reg, p, *t, None, input, d) {
            Err(e) => Err(e),
            Ok(v) => Ok(Dynamic::List(None, v)),
        },
        TypeInfo::Array(t, cap) => match decode_seq_body(reg, p, *t, Some(*cap), input, d) {
            Err(e) => Err(e),
            Ok(v) => Ok(Dynamic::Array(None, v)),
        },
        TypeInfo::MapOf(kt, vt) => match input {
            Input::Mapping(es) => match decode_entries(reg, p, *kt, *vt, es, d) {
                Err(e) => Err(e),
                Ok((ks, vs)) => Ok(Dynamic::MapOf(None, ks, vs)),
            },
            _ => Err(DeError::InvalidType),
        },
        TypeInfo::SetOf(t) => match decode_seq_body(reg, p, *t, None, input, d) {
            Err(e) => Err(e),
            Ok(v) => Ok(Dynamic::SetOf(None, v)),
        },
        TypeInfo::Enum(vs, is_option) => decode_enum_body(reg, p, vs, *is_option, input, d),
    }
}

/// The typed engine: reads `input` as a value of type `id`.
fn deserialize_value<P: DeserializeProcessor>(
    reg: &TypeRegistry,
    p: Option<&P>,
    id: usize,
    input: &Input,
    depth: usize,
) -> (r: Result<Dynamic, DeError>)
    ensures
        res_model(r) == decode(reg.types@, p, id, *input, depth as nat),
    decreases depth, 2nat, 0int,
{
    if depth == 0 {
        return Err(DeError::RecursionLimit);
    }
    if id >= reg.types.len() {
        return Err(DeError::UnknownTypeId(id));
    }
    if let Some(q) = p {
        if q.can_deserialize(id) {
            return q.deserialize(id, input);
        }
    }
    if let Some(k) = reg.types[id].deserialize {
        return match crate::value::decode_leaf(k, input) {
            Ok(l) => Ok(Dynamic::Leaf(l)),
            Err(e) => Err(e),
        };
    }
    if let Some(proxy) = reg.types[id].deserialize_with_registry {
        return deserialize_value(reg, p, proxy, input, depth - 1);
    }
    match decode_shape(reg, p, id, input, depth) {
        Ok(v) => Ok(v.with_represented_type(id)),
        Err(e) => Err(e),
    }
}

/// Reads a value whose type is known: the registration with id
/// `registration` in `registry`, optionally with a processor that takes over
/// chosen types.
pub struct TypedReflectDeserializer<'a, P: DeserializeProcessor> {
    pub registration: usize,
    pub registry: &'a TypeRegistry,
    pub processor: Option<&'a P>,
}

impl<'a> TypedReflectDeserializer<'a, ReflectDeserializerProcessor> {
    pub fn new(registration: usize, registry: &'a TypeRegistry) -> (r: Self)
        ensures
            r.registration == registration,
            r.registry == registry,
            r.processor is None,
    {
        TypedReflectDeserializer { registration, registry, processor: None }
    }

    /// A deserializer for the type registered under `path`; `None` where no
    /// registration has that path.
    pub fn of(registry: &'a TypeRegistry, path: &String) -> (r: Option<Self>)
        ensures
            find_path(registry.types@, path@, 0) is None ==> r is None,
            find_path(registry.types@, path@, 0) matches Some(id) ==> (r matches Some(d)
                && d.registration == id && d.registry == registry && d.processor is None),
    {
        match registry.get_with_type_path(path) {
            Some(id) => Some(TypedReflectDeserializer::new(id, registry)),
            None => None,
        }
    }
}

impl<'a, P: DeserializeProcessor> TypedReflectDeserializer<'a, P> {
    pub fn new_with_processor(
        registration: usize,
        registry: &'a TypeRegistry,
        processor: &'a P,
    ) -> (r: Self)
        ensures
            r.registration == registration,
            r.registry == registry,
            r.processor == Some(processor),
    {
        TypedReflectDeserializer { registration, registry, processor: Some(processor) }
    }

    /// Reads one value of this deserializer's type.
    pub fn deserialize(self, input: &Input) -> (r: Result<Dynamic, DeError>)
        ensures
            res_model(r) == decode(self.registry.types@, self.processor, self.registration, *input, MAX_DEPTH as nat),
    {
        deserialize_value(self.registry, self.processor, self.registration, input, MAX_DEPTH)
    }
}

/// Reads a value tagged with its type: a mapping with one entry from the
/// type's full path to its data.
pub struct ReflectDeserializer<'a, P: DeserializeProcessor> {
    pub registry: &'a TypeRegistry,
    pub processor: Option<&'a P>,
}

impl<'a> ReflectDeserializer<'a, ReflectDeserializerProcessor> {
    pub fn new(registry: &'a TypeRegistry) -> (r: Self)
        ensures
            r.registry == registry,
            r.processor is None,
    {
        ReflectDeserializer { registry, processor: None }
    }
}

impl<'a, P: DeserializeProcessor> ReflectDeserializer<'a, P> {
    pub fn new_with_processor(registry: &'a TypeRegistry, processor: &'a P) -> (r: Self)
        ensures
            r.registry == registry,
            r.processor == Some(processor),
    {
        ReflectDeserializer { registry, processor: Some(processor) }
    }

    /// Reads one tagged value. A mapping with no entry or with more than one
    /// is refused before anything else is read.
    pub fn deserialize(self, input: &Input) -> (r: Result<Dynamic, DeError>)
        ensures
            res_model(r) == untyped(self.registry.types@, self.processor, *input),
    {
        match input {
            Input::Mapping(es) => {
                if es.len() != 1 {
                    return Err(DeError::InvalidLength(es.len()));
                }
                match &es[0].0 {
                    Input::Str(path) => match self.registry.get_with_type_path(path) {
                        None => Err(DeError::UnknownType(path.clone())),
                        Some(id) => deserialize_value(self.registry, self.processor, id, &es[0].1, MAX_DEPTH),
                    },
                    _ => Err(DeError::InvalidType),
                }
            },
            _ => Err(DeError::InvalidType),
        }
    }
}

} // verus!

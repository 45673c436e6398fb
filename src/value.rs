use vstd::prelude::*;
use crate::input::Input;
use crate::registry::LeafKind;
use crate::error::DeError;

verus! {

/// A concrete leaf value produced by a plain deserialize strategy.
#[derive(Debug, Clone, PartialEq)]
pub enum Leaf {
    Unit,
    Bool(bool),
    I32(i32),
    I64(i64),
    U64(u64),
    Str(String),
}

/// Which payload layout a reconstructed enum value carries.
#[derive(Debug, Clone, Copy, PartialEq, Eq)]
pub enum VariantKind {
    Unit,
    Tuple,
    Struct,
}

/// The engine's output: a leaf, or a container of nested values together
/// with the id of the type it represents (set once it is complete).
#[derive(Debug, PartialEq)]
pub enum Dynamic {
    Leaf(Leaf),
    /// Represented type, field names and field values, in input order.
    Struct(Option<usize>, Vec<String>, Vec<Dynamic>),
    TupleStruct(Option<usize>, Vec<Dynamic>),
    Tuple(Option<usize>, Vec<Dynamic>),
    List(Option<usize>, Vec<Dynamic>),
    Array(Option<usize>, Vec<Dynamic>),
    /// Represented type, keys and values, pairwise.
    MapOf(Option<usize>, Vec<Dynamic>, Vec<Dynamic>),
    SetOf(Option<usize>, Vec<Dynamic>),
    /// Represented type, variant name, payload layout, field names (struct
    /// variants only) and field values.
    Enum(Option<usize>, String, VariantKind, Vec<String>, Vec<Dynamic>),
}

/// The mathematical model of a [`Dynamic`].
pub enum DynV {
    Leaf(Leaf),
    Struct(Option<usize>, Seq<String>, Seq<DynV>),
    TupleStruct(Option<usize>, Seq<DynV>),
    Tuple(Option<usize>, Seq<DynV>),
    List(Option<usize>, Seq<DynV>),
    Array(Option<usize>, Seq<DynV>),
    MapOf(Option<usize>, Seq<DynV>, Seq<DynV>),
    SetOf(Option<usize>, Seq<DynV>),
    Enum(Option<usize>, String, VariantKind, Seq<String>, Seq<DynV>),
}

pub open spec fn models(v: Seq<Dynamic>) -> Seq<DynV>
    decreases v,
{
    Seq::new(v.len(), |i: int| if 0 <= i < v.len() { v[i].model() } else { DynV::Leaf(Leaf::Unit) })
}

impl Dynamic {
    pub open spec fn model(self) -> DynV
        decreases self,
    {
        match self {
            Dynamic::Leaf(l) => DynV::Leaf(l),
            Dynamic::Struct(t, n, v) => DynV::Struct(t, n@, models(v@)),
            Dynamic::TupleStruct(t, v) => DynV::TupleStruct(t, models(v@)),
            Dynamic::Tuple(t, v) => DynV::Tuple(t, models(v@)),
            Dynamic::List(t, v) => DynV::List(t, models(v@)),
            Dynamic::Array(t, v) => DynV::Array(t, models(v@)),
            Dynamic::MapOf(t, k, v) => DynV::MapOf(t, models(k@), models(v@)),
            Dynamic::SetOf(t, v) => DynV::SetOf(t, models(v@)),
            Dynamic::Enum(t, name, kind, n, v) => DynV::Enum(t, name, kind, n@, models(v@)),
        }
    }
}


/// The represented-type tag of a value; leaves carry none.
pub open spec fn tag_of(v: DynV) -> Option<usize> {
    match v {
        DynV::Leaf(_) => None,
        DynV::Struct(t, _, _) => t,
        DynV::TupleStruct(t, _) => t,
        DynV::Tuple(t, _) => t,
        DynV::List(t, _) => t,
        DynV::Array(t, _) => t,
        DynV::MapOf(t, _, _) => t,
        DynV::SetOf(t, _) => t,
        DynV::Enum(t, _, _, _, _) => t,
    }
}

/// The same value with its represented-type tag set to `id`; a leaf is
/// returned unchanged.
pub open spec fn tagged(v: DynV, id: usize) -> DynV {
    match v {
        DynV::Leaf(l) => DynV::Leaf(l),
        DynV::Struct(_, n, x) => DynV::Struct(Some(id), n, x),
        DynV::TupleStruct(_, x) => DynV::TupleStruct(Some(id), x),
        DynV::Tuple(_, x) => DynV::Tuple(Some(id), x),
        DynV::List(_, x) => DynV::List(Some(id), x),
        DynV::Array(_, x) => DynV::Array(Some(id), x),
        DynV::MapOf(_, k, x) => DynV::MapOf(Some(id), k, x),
        DynV::SetOf(_, x) => DynV::SetOf(Some(id), x),
        DynV::Enum(_, name, kind, n, x) => DynV::Enum(Some(id), name, kind, n, x),
    }
}

impl Dynamic {
    /// Sets the represented type of a container; leaves stay as they are.
    pub fn with_represented_type(self, id: usize) -> (r: Dynamic)
        ensures
            r.model() == tagged(self.model(), id),
    {
        match self {
            Dynamic::Leaf(l) => Dynamic::Leaf(l),
            Dynamic::Struct(_, n, x) => Dynamic::Struct(Some(id), n, x),
            Dynamic::TupleStruct(_, x) => Dynamic::TupleStruct(Some(id), x),
            Dynamic::Tuple(_, x) => Dynamic::Tuple(Some(id), x),
            Dynamic::List(_, x) => Dynamic::List(Some(id), x),
            Dynamic::Array(_, x) => Dynamic::Array(Some(id), x),
            Dynamic::MapOf(_, k, x) => Dynamic::MapOf(Some(id), k, x),
            Dynamic::SetOf(_, x) => Dynamic::SetOf(Some(id), x),
            Dynamic::Enum(_, name, kind, n, x) => Dynamic::Enum(Some(id), name, kind, n, x),
        }
    }

    /// The id of the type this value represents, if it is a tagged container.
    pub fn represented_type(&self) -> (r: Option<usize>)
        ensures
            r == tag_of(self.model()),
    {
        match self {
            Dynamic::Leaf(_) => None,
            Dynamic::Struct(t, _, _) => *t,
            Dynamic::TupleStruct(t, _) => *t,
            Dynamic::Tuple(t, _) => *t,
            Dynamic::List(t, _) => *t,
            Dynamic::Array(t, _) => *t,
            Dynamic::MapOf(t, _, _) => *t,
            Dynamic::SetOf(t, _) => *t,
            Dynamic::Enum(t, _, _, _, _) => *t,
        }
    }
}

/// What a leaf codec reads from one input value.
pub open spec fn leaf_of(k: LeafKind, input: Input) -> Result<Leaf, DeError> {
    match (k, input) {
        (LeafKind::Unit, Input::Unit) => Ok(Leaf::Unit),
        (LeafKind::Bool, Input::Bool(b)) => Ok(Leaf::Bool(b)),
        (LeafKind::I32, Input::I64(n)) => if i32::MIN <= n <= i32::MAX {
            Ok(Leaf::I32(n as i32))
        } else {
            Err(DeError::InvalidValue)
        },
        (LeafKind::I32, Input::U64(n)) => if n <= i32::MAX {
            Ok(Leaf::I32(n as i32))
        } else {
            Err(DeError::InvalidValue)
        },
        (LeafKind::I64, Input::I64(n)) => Ok(Leaf::I64(n)),
        (LeafKind::I64, Input::U64(n)) => if n <= i64::MAX {
            Ok(Leaf::I64(n as i64))
        } else {
            Err(DeError::InvalidValue)
        },
        (LeafKind::U64, Input::U64(n)) => Ok(Leaf::U64(n)),
        (LeafKind::U64, Input::I64(n)) => if n >= 0 {
            Ok(Leaf::U64(n as u64))
        } else {
            Err(DeError::InvalidValue)
        },
        (LeafKind::Str, Input::Str(s)) => Ok(Leaf::Str(s)),
        _ => Err(DeError::InvalidType),
    }
}

/// The codec that reads a leaf back.
pub open spec fn kind_of(l: Leaf) -> LeafKind {
    match l {
        Leaf::Unit => LeafKind::Unit,
        Leaf::Bool(_) => LeafKind::Bool,
        Leaf::I32(_) => LeafKind::I32,
        Leaf::I64(_) => LeafKind::I64,
        Leaf::U64(_) => LeafKind::U64,
        Leaf::Str(_) => LeafKind::Str,
    }
}

/// How a leaf is written: signed integers as 64-bit signed numbers.
pub open spec fn encode_leaf(l: Leaf) -> Input {
    match l {
        Leaf::Unit => Input::Unit,
        Leaf::Bool(b) => Input::Bool(b),
        Leaf::I32(n) => Input::I64(n as i64),
        Leaf::I64(n) => Input::I64(n),
        Leaf::U64(n) => Input::U64(n),
        Leaf::Str(s) => Input::Str(s),
    }
}

/// Reads a leaf of the given kind from one input value.
pub fn decode_leaf(k: LeafKind, input: &Input) -> (r: Result<Leaf, DeError>)
    ensures
        r == leaf_of(k, *input),
{
    match (k, input) {
        (LeafKind::Unit, Input::Unit) => Ok(Leaf::Unit),
        (LeafKind::Bool, Input::Bool(b)) => Ok(Leaf::Bool(*b)),
        (LeafKind::I32, Input::I64(n)) => if i32::MIN as i64 <= *n && *n <= i32::MAX as i64 {
            Ok(Leaf::I32(*n as i32))
        } else {
            Err(DeError::InvalidValue)
        },
        (LeafKind::I32, Input::U64(n)) => if *n <= i32::MAX as u64 {
            Ok(Leaf::I32(*n as i32))
        } else {
            Err(DeError::InvalidValue)
        },
        (LeafKind::I64, Input::I64(n)) => Ok(Leaf::I64(*n)),
        (LeafKind::I64, Input::U64(n)) => if *n <= i64::MAX as u64 {
            Ok(Leaf::I64(*n as i64))
        } else {
            Err(DeError::InvalidValue)
        },
        (LeafKind::U64, Input::U64(n)) => Ok(Leaf::U64(*n)),
        (LeafKind::U64, Input::I64(n)) => if *n >= 0 {
            Ok(Leaf::U64(*n as u64))
        } else {
            Err(DeError::InvalidValue)
        },
        (LeafKind::Str, Input::Str(s)) => Ok(Leaf::Str(s.clone())),
        _ => Err(DeError::InvalidType),
    }
}

impl Leaf {
    /// Writes this leaf as an input value.
    pub fn to_input(&self) -> (r: Input)
        ensures
            r == encode_leaf(*self),
    {
        match self {
            Leaf::Unit => Input::Unit,
            Leaf::Bool(b) => Input::Bool(*b),
            Leaf::I32(n) => Input::I64(*n as i64),
            Leaf::I64(n) => Input::I64(*n),
            Leaf::U64(n) => Input::U64(*n),
            Leaf::Str(s) => Input::Str(s.clone()),
        }
    }
}

} // verus!

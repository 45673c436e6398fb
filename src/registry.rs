use vstd::prelude::*;

verus! {

/// The built-in codecs that a leaf type can carry as its deserialize strategy.
#[derive(Debug, Clone, Copy, PartialEq, Eq)]
pub enum LeafKind {
    Unit,
    Bool,
    I32,
    I64,
    U64,
    Str,
}

/// A named field of a struct or of a struct variant, with its type id.
#[derive(Debug, Clone, PartialEq)]
pub struct NamedField {
    pub name: String,
    pub ty: usize,
}

/// The payload layout of one enum variant.
#[derive(Debug, Clone, PartialEq)]
pub enum VariantShape {
    Unit,
    Tuple(Vec<usize>),
    Struct(Vec<NamedField>),
}

#[derive(Debug, Clone, PartialEq)]
pub struct VariantInfo {
    pub name: String,
    pub shape: VariantShape,
}

/// The structural shape of a registered type. Type ids are indices into the
/// registry.
#[derive(Debug, Clone, PartialEq)]
pub enum TypeInfo {
    Opaque,
    Struct(Vec<NamedField>),
    TupleStruct(Vec<usize>),
    Tuple(Vec<usize>),
    List(usize),
    /// Element type and declared capacity.
    Array(usize, usize),
    /// Key type and value type.
    MapOf(usize, usize),
    SetOf(usize),
    /// The variants, and whether this enum is the built-in optional type
    /// (a unit `None` variant followed by a one-field tuple `Some` variant).
    Enum(Vec<VariantInfo>, bool),
}

/// A descriptor together with its attached extension data.
#[derive(Debug, Clone, PartialEq)]
pub struct TypeRegistration {
    /// The full type path.
    pub path: String,
    pub info: TypeInfo,
    /// A plain deserialize strategy: the value is read as a leaf.
    pub deserialize: Option<LeafKind>,
    /// A registry-aware strategy: the value is read through the registration
    /// of the given proxy type.
    pub deserialize_with_registry: Option<usize>,
    /// The skip-defaults hint; it turns off the newtype shape of one-field
    /// tuple structs.
    pub skip_defaults: bool,
}

/// The type catalogue: registrations indexed by type id.
#[derive(Debug, Clone, PartialEq)]
pub struct TypeRegistry {
    pub types: Vec<TypeRegistration>,
}

/// The first id at or after `i` whose registration has the given path.
pub open spec fn find_path(types: Seq<TypeRegistration>, path: Seq<char>, i: int) -> Option<usize>
    decreases types.len() - i,
{
    if i < 0 || i >= types.len() {
        None
    } else if types[i].path@ == path {
        Some(i as usize)
    } else {
        find_path(types, path, i + 1)
    }
}

/// The first index at or after `i` of a field with the given name.
pub open spec fn find_field(fields: Seq<NamedField>, name: Seq<char>, i: int) -> Option<int>
    decreases fields.len() - i,
{
    if i < 0 || i >= fields.len() {
        None
    } else if fields[i].name@ == name {
        Some(i)
    } else {
        find_field(fields, name, i + 1)
    }
}

/// The first index at or after `i` of a variant with the given name.
pub open spec fn find_variant(vs: Seq<VariantInfo>, name: Seq<char>, i: int) -> Option<int>
    decreases vs.len() - i,
{
    if i < 0 || i >= vs.len() {
        None
    } else if vs[i].name@ == name {
        Some(i)
    } else {
        find_variant(vs, name, i + 1)
    }
}

pub fn find_field_index(fields: &Vec<NamedField>, name: &String) -> (r: Option<usize>)
    ensures
        r matches Some(j) ==> Some(j as int) == find_field(fields@, name@, 0) && j < fields@.len(),
        r is None ==> find_field(fields@, name@, 0) is None,
{
    let mut i: usize = 0;
    while i < fields.len()
        invariant
            i <= fields.len(),
            find_field(fields@, name@, 0) == find_field(fields@, name@, i as int),
        decreases fields.len() - i,
    {
        if fields[i].name == *name {
            return Some(i);
        }
        i += 1;
    }
    None
}

pub fn find_variant_index(vs: &Vec<VariantInfo>, name: &String) -> (r: Option<usize>)
    ensures
        r matches Some(j) ==> Some(j as int) == find_variant(vs@, name@, 0) && j < vs@.len(),
        r is None ==> find_variant(vs@, name@, 0) is None,
{
    let mut i: usize = 0;
    while i < vs.len()
        invariant
            i <= vs.len(),
            find_variant(vs@, name@, 0) == find_variant(vs@, name@, i as int),
        decreases vs.len() - i,
    {
        if vs[i].name == *name {
            return Some(i);
        }
        i += 1;
    }
    None
}

impl TypeRegistry {
    pub fn new() -> (r: TypeRegistry)
        ensures
            r.types@.len() == 0,
    {
        TypeRegistry { types: Vec::new() }
    }

    /// Adds a registration and returns its type id.
    pub fn register(&mut self, reg: TypeRegistration) -> (id: usize)
        requires
            old(self).types@.len() < usize::MAX,
        ensures
            id == old(self).types@.len(),
            final(self).types@ == old(self).types@.push(reg),
    {
        let id: usize = self.types.len();
        self.types.push(reg);
        id
    }

    /// Resolves a full type path to the id of its first registration.
    pub fn get_with_type_path(&self, path: &String) -> (r: Option<usize>)
        ensures
            r == find_path(self.types@, path@, 0),
    {
        let mut i: usize = 0;
        while i < self.types.len()
            invariant
                i <= self.types.len(),
                find_path(self.types@, path@, 0) == find_path(self.types@, path@, i as int),
            decreases self.types.len() - i,
        {
            if self.types[i].path == *path {
                return Some(i);
            }
            i += 1;
        }
        None
    }
}

} // verus!

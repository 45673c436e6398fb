use vstd::prelude::*;

verus! {

/// Why a value could not be reconstructed.
#[derive(Debug, Clone, PartialEq)]
pub enum DeError {
    /// The path under which an untyped value was tagged names no registration.
    UnknownType(String),
    /// A descriptor refers to a type id that the registry does not hold.
    UnknownTypeId(usize),
    /// An entry count, a sequence length or an array capacity does not match
    /// the expected shape; carries the length that was found.
    InvalidLength(usize),
    /// The input holds another kind of value than the shape asks for.
    InvalidType,
    /// A number does not fit the target integer type.
    InvalidValue,
    /// The registration is opaque and carries no way to read its values;
    /// carries the type's path.
    MissingStrategy(String),
    /// A named-field aggregate holds a field that the descriptor lacks.
    UnknownField(String),
    /// A named-field aggregate holds the same field twice.
    DuplicateField(String),
    /// A tagged union names a variant that the descriptor lacks.
    UnknownVariant(String),
    /// The value nests deeper than the engine follows.
    RecursionLimit,
    /// A processor failed to read a value it took over.
    Custom(String),
}

} // verus!

use vstd::prelude::*;

verus! {

/// One self-describing value as a format's pull interface hands it out:
/// scalars, an optional value, a sequence, a mapping of key/value pairs, or a
/// tagged union carrying a variant name and its payload.
#[derive(Debug, PartialEq)]
pub enum Input {
    Unit,
    Bool(bool),
    I64(i64),
    U64(u64),
    Str(String),
    Absent,
    Present(Box<Input>),
    Sequence(Vec<Input>),
    Mapping(Vec<(Input, Input)>),
    Variant(String, Box<Input>),
}

/// The text of a key, where the key is a string.
pub open spec fn key_text(k: Input) -> Option<Seq<char>> {
    match k {
        Input::Str(s) => Some(s@),
        _ => None,
    }
}

} // verus!

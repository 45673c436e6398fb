use reflect_de::deserializer::{ReflectDeserializer, TypedReflectDeserializer};
use reflect_de::error::DeError;
use reflect_de::input::Input;
use reflect_de::processor::{DeserializeProcessor, ReflectDeserializerProcessor};
use reflect_de::registry::{
    LeafKind, NamedField, TypeInfo, TypeRegistration, TypeRegistry, VariantInfo, VariantShape,
};
use reflect_de::value::{Dynamic, Leaf, VariantKind};

fn reg(path: &str, info: TypeInfo) -> TypeRegistration {
    TypeRegistration {
        path: path.to_string(),
        info,
        deserialize: None,
        deserialize_with_registry: None,
        skip_defaults: false,
    }
}

fn leaf_reg(path: &str, kind: LeafKind) -> TypeRegistration {
    TypeRegistration {
        deserialize: Some(kind),
        ..reg(path, TypeInfo::Opaque)
    }
}

fn field(name: &str, ty: usize) -> NamedField {
    NamedField { name: name.to_string(), ty }
}

fn s(x: &str) -> Input {
    Input::Str(x.to_string())
}

/// 0 i32, 1 String, 2 pkg::Point, 3 Wrapper(i32), 4 Skipped(i32),
/// 5 [i32; 3], 6 Option<i32>, 7 Vec<i32>, 8 HashMap<String, i32>,
/// 9 HashSet<i32>, 10 (i32, String), 11 pkg::Shape, 12 Opaque without strategy,
/// 13 bool, 14 u64, 15 i64, 16 proxy of pkg::Point, 17 ()
fn registry() -> TypeRegistry {
    let mut r = TypeRegistry::new();
    r.register(leaf_reg("i32", LeafKind::I32));
    r.register(leaf_reg("alloc::string::String", LeafKind::Str));
    r.register(reg("pkg::Point", TypeInfo::Struct(vec![field("value", 0)])));
    r.register(reg("pkg::Wrapper", TypeInfo::TupleStruct(vec![0])));
    r.register(TypeRegistration {
        skip_defaults: true,
        ..reg("pkg::Skipped", TypeInfo::TupleStruct(vec![0]))
    });
    r.register(reg("[i32; 3]", TypeInfo::Array(0, 3)));
    r.register(reg(
        "core::option::Option<i32>",
        TypeInfo::Enum(
            vec![
                VariantInfo { name: "None".to_string(), shape: VariantShape::Unit },
                VariantInfo { name: "Some".to_string(), shape: VariantShape::Tuple(vec![0]) },
            ],
            true,
        ),
    ));
    r.register(reg("alloc::vec::Vec<i32>", TypeInfo::List(0)));
    r.register(reg("HashMap<String, i32>", TypeInfo::MapOf(1, 0)));
    r.register(reg("HashSet<i32>", TypeInfo::SetOf(0)));
    r.register(reg("(i32, String)", TypeInfo::Tuple(vec![0, 1])));
    r.register(reg(
        "pkg::Shape",
        TypeInfo::Enum(
            vec![
                VariantInfo { name: "Empty".to_string(), shape: VariantShape::Unit },
                VariantInfo { name: "Pair".to_string(), shape: VariantShape::Tuple(vec![0, 0]) },
                VariantInfo {
                    name: "Circle".to_string(),
                    shape: VariantShape::Struct(vec![field("radius", 0)]),
                },
            ],
            false,
        ),
    ));
    r.register(reg("pkg::Handle", TypeInfo::Opaque));
    r.register(leaf_reg("bool", LeafKind::Bool));
    r.register(leaf_reg("u64", LeafKind::U64));
    r.register(leaf_reg("i64", LeafKind::I64));
    r.register(TypeRegistration {
        deserialize_with_registry: Some(2),
        ..reg("pkg::PointProxy", TypeInfo::Struct(vec![field("value", 0)]))
    });
    r.register(leaf_reg("()", LeafKind::Unit));
    r
}

fn typed(r: &TypeRegistry, id: usize, input: &Input) -> Result<Dynamic, DeError> {
    TypedReflectDeserializer::new(id, r).deserialize(input)
}

fn i32v(n: i32) -> Dynamic {
    Dynamic::Leaf(Leaf::I32(n))
}

#[test]
fn untyped_struct_point() {
    let r = registry();
    let input = Input::Mapping(vec![(
        s("pkg::Point"),
        Input::Mapping(vec![(s("value"), Input::I64(7))]),
    )]);
    let v = ReflectDeserializer::new(&r).deserialize(&input).unwrap();
    assert_eq!(v, Dynamic::Struct(Some(2), vec!["value".to_string()], vec![i32v(7)]));
    assert_eq!(v.represented_type(), Some(2));
}

#[test]
fn untyped_extra_entry_is_length_error() {
    let r = registry();
    let input = Input::Mapping(vec![
        (s("pkg::Point"), Input::Mapping(vec![(s("value"), Input::I64(7))])),
        (s("extra"), Input::I64(1)),
    ]);
    assert_eq!(ReflectDeserializer::new(&r).deserialize(&input), Err(DeError::InvalidLength(2)));
}

#[test]
fn untyped_empty_mapping_is_length_error() {
    let r = registry();
    assert_eq!(
        ReflectDeserializer::new(&r).deserialize(&Input::Mapping(vec![])),
        Err(DeError::InvalidLength(0))
    );
}

#[test]
fn untyped_unknown_path() {
    let r = registry();
    let input = Input::Mapping(vec![(s("pkg::Nope"), Input::I64(1))]);
    assert_eq!(
        ReflectDeserializer::new(&r).deserialize(&input),
        Err(DeError::UnknownType("pkg::Nope".to_string()))
    );
}

#[test]
fn untyped_not_a_mapping() {
    let r = registry();
    assert_eq!(ReflectDeserializer::new(&r).deserialize(&Input::I64(1)), Err(DeError::InvalidType));
}

#[test]
fn option_absent_and_present() {
    let r = registry();
    let none = typed(&r, 6, &Input::Absent).unwrap();
    assert_eq!(none, Dynamic::Enum(Some(6), "None".to_string(), VariantKind::Unit, vec![], vec![]));
    let some = typed(&r, 6, &Input::Present(Box::new(Input::I64(5)))).unwrap();
    assert_eq!(
        some,
        Dynamic::Enum(Some(6), "Some".to_string(), VariantKind::Tuple, vec![], vec![i32v(5)])
    );
}

#[test]
fn leaf_round_trips() {
    let r = registry();
    let cases = vec![
        (0, Leaf::I32(-42)),
        (1, Leaf::Str("hi".to_string())),
        (13, Leaf::Bool(true)),
        (14, Leaf::U64(u64::MAX)),
        (15, Leaf::I64(i64::MIN)),
        (17, Leaf::Unit),
    ];
    for (id, l) in cases {
        let out = typed(&r, id, &l.to_input()).unwrap();
        assert_eq!(out, Dynamic::Leaf(l));
    }
}

#[test]
fn leaf_encoding_of_i32_is_i64() {
    assert_eq!(Leaf::I32(-3).to_input(), Input::I64(-3));
}

#[test]
fn leaf_number_conversions() {
    let r = registry();
    assert_eq!(typed(&r, 0, &Input::U64(9)), Ok(i32v(9)));
    assert_eq!(typed(&r, 0, &Input::I64(1 << 40)), Err(DeError::InvalidValue));
    assert_eq!(typed(&r, 14, &Input::I64(-1)), Err(DeError::InvalidValue));
    assert_eq!(typed(&r, 14, &Input::I64(3)), Ok(Dynamic::Leaf(Leaf::U64(3))));
    assert_eq!(typed(&r, 15, &Input::U64(u64::MAX)), Err(DeError::InvalidValue));
    assert_eq!(typed(&r, 0, &s("x")), Err(DeError::InvalidType));
}

#[test]
fn structural_results_carry_their_type() {
    let r = registry();
    let list = typed(&r, 7, &Input::Sequence(vec![Input::I64(1), Input::I64(2)])).unwrap();
    assert_eq!(list, Dynamic::List(Some(7), vec![i32v(1), i32v(2)]));
    let set = typed(&r, 9, &Input::Sequence(vec![Input::I64(4)])).unwrap();
    assert_eq!(set, Dynamic::SetOf(Some(9), vec![i32v(4)]));
    let tuple = typed(&r, 10, &Input::Sequence(vec![Input::I64(1), s("a")])).unwrap();
    assert_eq!(
        tuple,
        Dynamic::Tuple(Some(10), vec![i32v(1), Dynamic::Leaf(Leaf::Str("a".to_string()))])
    );
    let arr = typed(&r, 5, &Input::Sequence(vec![Input::I64(1), Input::I64(2), Input::I64(3)]));
    assert_eq!(arr.unwrap().represented_type(), Some(5));
}

#[test]
fn map_keys_and_values_in_order() {
    let r = registry();
    let m = typed(&r, 8, &Input::Mapping(vec![(s("a"), Input::I64(1)), (s("b"), Input::I64(2))]));
    assert_eq!(
        m.unwrap(),
        Dynamic::MapOf(
            Some(8),
            vec![
                Dynamic::Leaf(Leaf::Str("a".to_string())),
                Dynamic::Leaf(Leaf::Str("b".to_string()))
            ],
            vec![i32v(1), i32v(2)]
        )
    );
    assert_eq!(typed(&r, 8, &Input::Sequence(vec![])), Err(DeError::InvalidType));
}

#[test]
fn newtype_shape_without_skip_defaults() {
    let r = registry();
    assert_eq!(typed(&r, 3, &Input::I64(4)), Ok(Dynamic::TupleStruct(Some(3), vec![i32v(4)])));
    assert_eq!(
        typed(&r, 3, &Input::Sequence(vec![Input::I64(4)])),
        Err(DeError::InvalidType)
    );
}

#[test]
fn tuple_shape_with_skip_defaults() {
    let r = registry();
    assert_eq!(
        typed(&r, 4, &Input::Sequence(vec![Input::I64(4)])),
        Ok(Dynamic::TupleStruct(Some(4), vec![i32v(4)]))
    );
    assert_eq!(typed(&r, 4, &Input::I64(4)), Err(DeError::InvalidType));
}

#[test]
fn array_length_must_match_capacity() {
    let r = registry();
    assert_eq!(
        typed(&r, 5, &Input::Sequence(vec![Input::I64(1), Input::I64(2)])),
        Err(DeError::InvalidLength(2))
    );
    assert_eq!(
        typed(&r, 5, &Input::Sequence(vec![Input::I64(1), Input::I64(2), Input::I64(3), Input::I64(4)])),
        Err(DeError::InvalidLength(4))
    );
}

#[test]
fn tuple_length_must_match() {
    let r = registry();
    assert_eq!(typed(&r, 10, &Input::Sequence(vec![Input::I64(1)])), Err(DeError::InvalidLength(1)));
}

#[test]
fn processor_takes_precedence() {
    let r = registry();
    let p = ReflectDeserializerProcessor::new(vec![0], LeafKind::Str);
    let d = TypedReflectDeserializer::new_with_processor(0, &r, &p);
    assert_eq!(d.deserialize(&s("x")), Ok(Dynamic::Leaf(Leaf::Str("x".to_string()))));
    // nested values of the claimed type are intercepted too
    let list = TypedReflectDeserializer::new_with_processor(7, &r, &p)
        .deserialize(&Input::Sequence(vec![s("a")]));
    assert_eq!(
        list,
        Ok(Dynamic::List(Some(7), vec![Dynamic::Leaf(Leaf::Str("a".to_string()))]))
    );
    // unclaimed types are read as usual
    let input = Input::Mapping(vec![(s("bool"), Input::Bool(false))]);
    assert_eq!(
        ReflectDeserializer::new_with_processor(&r, &p).deserialize(&input),
        Ok(Dynamic::Leaf(Leaf::Bool(false)))
    );
}

#[test]
fn processor_claims_opaque_type_without_strategy() {
    let r = registry();
    let p = ReflectDeserializerProcessor::new(vec![12], LeafKind::Str);
    assert!(p.can_deserialize(12));
    assert!(!p.can_deserialize(0));
    let d = TypedReflectDeserializer::new_with_processor(12, &r, &p);
    assert_eq!(d.deserialize(&s("asset.png")), Ok(Dynamic::Leaf(Leaf::Str("asset.png".to_string()))));
}

#[test]
fn opaque_without_strategy_fails() {
    let r = registry();
    assert_eq!(
        typed(&r, 12, &Input::I64(1)),
        Err(DeError::MissingStrategy("pkg::Handle".to_string()))
    );
}

#[test]
fn struct_field_errors() {
    let r = registry();
    assert_eq!(
        typed(&r, 2, &Input::Mapping(vec![(s("other"), Input::I64(1))])),
        Err(DeError::UnknownField("other".to_string()))
    );
    assert_eq!(
        typed(&r, 2, &Input::Mapping(vec![(s("value"), Input::I64(1)), (s("value"), Input::I64(2))])),
        Err(DeError::DuplicateField("value".to_string()))
    );
    assert_eq!(typed(&r, 2, &Input::Mapping(vec![])), Err(DeError::InvalidLength(0)));
    assert_eq!(
        typed(&r, 2, &Input::Mapping(vec![(Input::I64(0), Input::I64(1))])),
        Err(DeError::InvalidType)
    );
    assert_eq!(
        typed(&r, 2, &Input::Mapping(vec![(s("value"), s("no"))])),
        Err(DeError::InvalidType)
    );
}

#[test]
fn enum_variants() {
    let r = registry();
    let unit = Input::Variant("Empty".to_string(), Box::new(Input::Unit));
    assert_eq!(
        typed(&r, 11, &unit),
        Ok(Dynamic::Enum(Some(11), "Empty".to_string(), VariantKind::Unit, vec![], vec![]))
    );
    let pair = Input::Variant("Pair".to_string(), Box::new(Input::Sequence(vec![Input::I64(1), Input::I64(2)])));
    assert_eq!(
        typed(&r, 11, &pair),
        Ok(Dynamic::Enum(Some(11), "Pair".to_string(), VariantKind::Tuple, vec![], vec![i32v(1), i32v(2)]))
    );
    let circle = Input::Variant(
        "Circle".to_string(),
        Box::new(Input::Mapping(vec![(s("radius"), Input::I64(3))])),
    );
    assert_eq!(
        typed(&r, 11, &circle),
        Ok(Dynamic::Enum(
            Some(11),
            "Circle".to_string(),
            VariantKind::Struct,
            vec!["radius".to_string()],
            vec![i32v(3)]
        ))
    );
    let bad = Input::Variant("Square".to_string(), Box::new(Input::Unit));
    assert_eq!(typed(&r, 11, &bad), Err(DeError::UnknownVariant("Square".to_string())));
}

#[test]
fn registry_aware_strategy_reads_through_proxy() {
    let r = registry();
    let out = typed(&r, 16, &Input::Mapping(vec![(s("value"), Input::I64(1))])).unwrap();
    assert_eq!(out.represented_type(), Some(2));
}

#[test]
fn unknown_type_id_and_lookup() {
    let r = registry();
    assert_eq!(typed(&r, 99, &Input::Unit), Err(DeError::UnknownTypeId(99)));
    assert_eq!(r.get_with_type_path(&"pkg::Point".to_string()), Some(2));
    assert!(TypedReflectDeserializer::of(&r, &"pkg::Missing".to_string()).is_none());
    let d = TypedReflectDeserializer::of(&r, &"i32".to_string()).unwrap();
    assert_eq!(d.deserialize(&Input::I64(1)), Ok(i32v(1)));
}

#[test]
fn nesting_deeper_than_limit_fails() {
    let mut r = TypeRegistry::new();
    r.register(reg("Deep", TypeInfo::List(0)));
    let mut input = Input::Sequence(vec![]);
    for _ in 0..200 {
        input = Input::Sequence(vec![input]);
    }
    assert_eq!(typed(&r, 0, &input), Err(DeError::RecursionLimit));
    let mut shallow = Input::Sequence(vec![]);
    for _ in 0..10 {
        shallow = Input::Sequence(vec![shallow]);
    }
    assert!(typed(&r, 0, &shallow).is_ok());
}

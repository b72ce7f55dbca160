use sats::{
    record, AlgebraicType, AlgebraicTypeRef, AlgebraicValue, ArrayType, ArrayValue, BuiltinType,
    BuiltinValue, Kind, MapType, MapValue, ProductType, ProductTypeElement, ProductValue,
    ScalarKind, SchemaMismatch, ShapeTree, SumType, SumTypeVariant, SumValue, Typespace, Value,
    ValueWithType,
};

fn u8_ty() -> AlgebraicType {
    AlgebraicType::Builtin(BuiltinType::U8)
}

fn bool_ty() -> AlgebraicType {
    AlgebraicType::Builtin(BuiltinType::Bool)
}

fn string_ty() -> AlgebraicType {
    AlgebraicType::Builtin(BuiltinType::String)
}

fn array_ty(elem: AlgebraicType) -> AlgebraicType {
    AlgebraicType::Builtin(BuiltinType::Array(ArrayType { elem_ty: Box::new(elem) }))
}

fn map_ty(key: AlgebraicType, value: AlgebraicType) -> AlgebraicType {
    AlgebraicType::Builtin(BuiltinType::Mapping(MapType {
        key_ty: Box::new(key),
        ty: Box::new(value),
    }))
}

fn field(name: Option<&str>, ty: AlgebraicType) -> ProductTypeElement {
    ProductTypeElement { name: name.map(|n| n.to_string()), algebraic_type: ty }
}

fn variant(name: Option<&str>, ty: AlgebraicType) -> SumTypeVariant {
    SumTypeVariant { name: name.map(|n| n.to_string()), algebraic_type: ty }
}

fn product_ty(elements: Vec<ProductTypeElement>) -> AlgebraicType {
    AlgebraicType::Product(ProductType { elements })
}

fn sum_ty(variants: Vec<SumTypeVariant>) -> AlgebraicType {
    AlgebraicType::Sum(SumType { variants })
}

fn u8_val(v: u8) -> AlgebraicValue {
    AlgebraicValue::Builtin(BuiltinValue::U8(v))
}

fn bool_val(v: bool) -> AlgebraicValue {
    AlgebraicValue::Builtin(BuiltinValue::Bool(v))
}

fn string_val(v: &str) -> AlgebraicValue {
    AlgebraicValue::Builtin(BuiltinValue::String(v.to_string()))
}

fn array_val(val: ArrayValue) -> AlgebraicValue {
    AlgebraicValue::Builtin(BuiltinValue::Array { val })
}

fn product_val(elements: Vec<AlgebraicValue>) -> AlgebraicValue {
    AlgebraicValue::Product(ProductValue { elements })
}

fn sum_val(tag: u8, value: AlgebraicValue) -> AlgebraicValue {
    AlgebraicValue::Sum(SumValue { tag, value: Box::new(value) })
}

fn unit_val() -> AlgebraicValue {
    product_val(vec![])
}

fn name(n: &str) -> Option<String> {
    Some(n.to_string())
}

fn emit(
    ts: &Typespace,
    ty: &AlgebraicType,
    val: &AlgebraicValue,
) -> Result<ShapeTree, SchemaMismatch> {
    Ok(record(&ValueWithType::new(ts, ty, val)?))
}

fn empty_space() -> Typespace {
    Typespace::new()
}

#[test]
fn scalar_with_its_type_is_itself() {
    assert_eq!(emit(&empty_space(), &u8_ty(), &u8_val(9)), Ok(ShapeTree::U8(9)));
    assert_eq!(
        emit(&empty_space(), &string_ty(), &string_val("hi")),
        Ok(ShapeTree::Str("hi".to_string()))
    );
}

#[test]
fn scalar_of_another_kind_is_a_mismatch() {
    assert_eq!(emit(&empty_space(), &u8_ty(), &bool_val(true)), Err(SchemaMismatch));
    assert_eq!(emit(&empty_space(), &bool_ty(), &u8_val(1)), Err(SchemaMismatch));
    assert_eq!(emit(&empty_space(), &u8_ty(), &unit_val()), Err(SchemaMismatch));
    assert_eq!(emit(&empty_space(), &product_ty(vec![]), &u8_val(1)), Err(SchemaMismatch));
    assert_eq!(
        emit(&empty_space(), &array_ty(u8_ty()), &u8_val(1)),
        Err(SchemaMismatch)
    );
    assert_eq!(
        emit(&empty_space(), &u8_ty(), &array_val(ArrayValue::U8(vec![1]))),
        Err(SchemaMismatch)
    );
}

#[test]
fn product_carries_the_declared_names_in_order() {
    let ty = product_ty(vec![
        field(Some("id"), u8_ty()),
        field(None, bool_ty()),
        field(Some("label"), string_ty()),
    ]);
    let val = product_val(vec![u8_val(1), bool_val(false), string_val("x")]);
    assert_eq!(
        emit(&empty_space(), &ty, &val),
        Ok(ShapeTree::NamedProduct(vec![
            (name("id"), ShapeTree::U8(1)),
            (None, ShapeTree::Bool(false)),
            (name("label"), ShapeTree::Str("x".to_string())),
        ]))
    );
}

#[test]
fn product_of_another_length_is_a_mismatch() {
    let ty = product_ty(vec![field(Some("id"), u8_ty()), field(None, bool_ty())]);
    assert_eq!(emit(&empty_space(), &ty, &product_val(vec![u8_val(1)])), Err(SchemaMismatch));
    assert_eq!(
        emit(&empty_space(), &ty, &product_val(vec![u8_val(1), bool_val(true), u8_val(2)])),
        Err(SchemaMismatch)
    );
    assert_eq!(
        emit(&empty_space(), &ty, &product_val(vec![bool_val(true), u8_val(1)])),
        Err(SchemaMismatch)
    );
}

#[test]
fn sum_carries_the_name_of_its_tag() {
    let ty = sum_ty(vec![variant(Some("left"), u8_ty()), variant(None, bool_ty())]);
    assert_eq!(
        emit(&empty_space(), &ty, &sum_val(0, u8_val(3))),
        Ok(ShapeTree::Variant { tag: 0, name: name("left"), payload: Box::new(ShapeTree::U8(3)) })
    );
    assert_eq!(
        emit(&empty_space(), &ty, &sum_val(1, bool_val(true))),
        Ok(ShapeTree::Variant { tag: 1, name: None, payload: Box::new(ShapeTree::Bool(true)) })
    );
}

#[test]
fn sum_with_a_tag_out_of_range_is_a_mismatch() {
    let ty = sum_ty(vec![variant(Some("left"), u8_ty()), variant(None, bool_ty())]);
    assert_eq!(emit(&empty_space(), &ty, &sum_val(2, u8_val(3))), Err(SchemaMismatch));
    assert_eq!(emit(&empty_space(), &ty, &sum_val(255, u8_val(3))), Err(SchemaMismatch));
    assert_eq!(emit(&empty_space(), &ty, &sum_val(0, bool_val(true))), Err(SchemaMismatch));
    assert_eq!(emit(&empty_space(), &sum_ty(vec![]), &sum_val(0, u8_val(3))), Err(SchemaMismatch));
}

#[test]
fn empty_array_goes_with_any_element_type() {
    let declared = vec![
        u8_ty(),
        bool_ty(),
        string_ty(),
        product_ty(vec![]),
        sum_ty(vec![]),
        array_ty(u8_ty()),
        map_ty(u8_ty(), u8_ty()),
        AlgebraicType::Ref(AlgebraicTypeRef(7)),
    ];
    for elem in declared {
        let ty = array_ty(elem);
        assert_eq!(
            emit(&empty_space(), &ty, &array_val(ArrayValue::Bool(vec![]))),
            Ok(ShapeTree::Array(vec![]))
        );
        assert_eq!(
            emit(&empty_space(), &ty, &array_val(ArrayValue::Sum(vec![]))),
            Ok(ShapeTree::Array(vec![]))
        );
        assert_eq!(
            emit(&empty_space(), &ty, &array_val(ArrayValue::Mapping(vec![]))),
            Ok(ShapeTree::Array(vec![]))
        );
    }
}

#[test]
fn empty_byte_array_is_bytes_only_with_the_byte_type() {
    assert_eq!(
        emit(&empty_space(), &array_ty(u8_ty()), &array_val(ArrayValue::U8(vec![]))),
        Ok(ShapeTree::Bytes(vec![]))
    );
    assert_eq!(
        emit(&empty_space(), &array_ty(bool_ty()), &array_val(ArrayValue::U8(vec![]))),
        Ok(ShapeTree::Array(vec![]))
    );
}

#[test]
fn array_of_another_kind_is_a_mismatch() {
    assert_eq!(
        emit(&empty_space(), &array_ty(u8_ty()), &array_val(ArrayValue::Bool(vec![true]))),
        Err(SchemaMismatch)
    );
    assert_eq!(
        emit(&empty_space(), &array_ty(bool_ty()), &array_val(ArrayValue::U8(vec![1]))),
        Err(SchemaMismatch)
    );
    assert_eq!(
        emit(
            &empty_space(),
            &array_ty(product_ty(vec![])),
            &array_val(ArrayValue::Sum(vec![SumValue { tag: 0, value: Box::new(unit_val()) }]))
        ),
        Err(SchemaMismatch)
    );
    assert_eq!(
        emit(
            &empty_space(),
            &array_ty(AlgebraicType::Ref(AlgebraicTypeRef(0))),
            &array_val(ArrayValue::U8(vec![1]))
        ),
        Err(SchemaMismatch)
    );
}

#[test]
fn byte_array_with_the_byte_type_goes_in_bulk() {
    assert_eq!(
        emit(&empty_space(), &array_ty(u8_ty()), &array_val(ArrayValue::U8(vec![1, 2, 3]))),
        Ok(ShapeTree::Bytes(vec![1, 2, 3]))
    );
}

#[test]
fn array_of_scalars_goes_element_by_element() {
    assert_eq!(
        emit(
            &empty_space(),
            &array_ty(string_ty()),
            &array_val(ArrayValue::String(vec!["a".to_string(), "b".to_string()]))
        ),
        Ok(ShapeTree::Array(vec![
            ShapeTree::Str("a".to_string()),
            ShapeTree::Str("b".to_string()),
        ]))
    );
}

#[test]
fn array_of_products_names_every_element() {
    let ty = array_ty(product_ty(vec![field(Some("x"), u8_ty())]));
    let val = array_val(ArrayValue::Product(vec![
        ProductValue { elements: vec![u8_val(1)] },
        ProductValue { elements: vec![u8_val(2)] },
    ]));
    assert_eq!(
        emit(&empty_space(), &ty, &val),
        Ok(ShapeTree::Array(vec![
            ShapeTree::NamedProduct(vec![(name("x"), ShapeTree::U8(1))]),
            ShapeTree::NamedProduct(vec![(name("x"), ShapeTree::U8(2))]),
        ]))
    );
    let bad = array_val(ArrayValue::Product(vec![
        ProductValue { elements: vec![u8_val(1)] },
        ProductValue { elements: vec![bool_val(true)] },
    ]));
    assert_eq!(emit(&empty_space(), &ty, &bad), Err(SchemaMismatch));
}

#[test]
fn array_of_arrays_and_of_maps() {
    let ty = array_ty(array_ty(u8_ty()));
    let val = array_val(ArrayValue::Array(vec![ArrayValue::U8(vec![1]), ArrayValue::U8(vec![])]));
    assert_eq!(
        emit(&empty_space(), &ty, &val),
        Ok(ShapeTree::Array(vec![ShapeTree::Bytes(vec![1]), ShapeTree::Bytes(vec![])]))
    );
    let mut m = MapValue::new();
    m.insert(u8_val(1), bool_val(true));
    let ty = array_ty(map_ty(u8_ty(), bool_ty()));
    let val = array_val(ArrayValue::Mapping(vec![m]));
    assert_eq!(
        emit(&empty_space(), &ty, &val),
        Ok(ShapeTree::Array(vec![ShapeTree::Mapping(vec![(
            ShapeTree::U8(1),
            ShapeTree::Bool(true)
        )])]))
    );
}

#[test]
fn element_type_behind_a_reference_is_followed() {
    let ts = Typespace { types: vec![product_ty(vec![field(Some("x"), u8_ty())])] };
    let ty = array_ty(AlgebraicType::Ref(AlgebraicTypeRef(0)));
    let val = array_val(ArrayValue::Product(vec![ProductValue { elements: vec![u8_val(1)] }]));
    assert_eq!(
        emit(&ts, &ty, &val),
        Ok(ShapeTree::Array(vec![ShapeTree::NamedProduct(vec![(name("x"), ShapeTree::U8(1))])]))
    );
}

#[test]
fn map_with_its_type_goes_in_key_order() {
    let mut m = MapValue::new();
    m.insert(u8_val(9), string_val("nine"));
    m.insert(u8_val(2), string_val("two"));
    let val = AlgebraicValue::Builtin(BuiltinValue::Mapping { val: m });
    assert_eq!(
        emit(&empty_space(), &map_ty(u8_ty(), string_ty()), &val),
        Ok(ShapeTree::Mapping(vec![
            (ShapeTree::U8(2), ShapeTree::Str("two".to_string())),
            (ShapeTree::U8(9), ShapeTree::Str("nine".to_string())),
        ]))
    );
    assert_eq!(emit(&empty_space(), &map_ty(bool_ty(), string_ty()), &val), Err(SchemaMismatch));
    assert_eq!(emit(&empty_space(), &map_ty(u8_ty(), u8_ty()), &val), Err(SchemaMismatch));
}

#[test]
fn references_are_followed_to_a_type() {
    let ts = Typespace {
        types: vec![
            AlgebraicType::Ref(AlgebraicTypeRef(1)),
            AlgebraicType::Ref(AlgebraicTypeRef(2)),
            u8_ty(),
        ],
    };
    let ty = AlgebraicType::Ref(AlgebraicTypeRef(0));
    assert_eq!(emit(&ts, &ty, &u8_val(4)), Ok(ShapeTree::U8(4)));
    assert_eq!(emit(&ts, &ty, &bool_val(true)), Err(SchemaMismatch));
}

#[test]
fn references_that_lead_nowhere_are_a_mismatch() {
    let circle = Typespace {
        types: vec![
            AlgebraicType::Ref(AlgebraicTypeRef(1)),
            AlgebraicType::Ref(AlgebraicTypeRef(0)),
        ],
    };
    let ty = AlgebraicType::Ref(AlgebraicTypeRef(0));
    assert_eq!(emit(&circle, &ty, &u8_val(4)), Err(SchemaMismatch));
    let itself = Typespace { types: vec![AlgebraicType::Ref(AlgebraicTypeRef(0))] };
    assert_eq!(emit(&itself, &ty, &u8_val(4)), Err(SchemaMismatch));
    let outside = AlgebraicType::Ref(AlgebraicTypeRef(5));
    assert_eq!(emit(&circle, &outside, &u8_val(4)), Err(SchemaMismatch));
    assert_eq!(emit(&empty_space(), &ty, &u8_val(4)), Err(SchemaMismatch));
}

fn list_space() -> Typespace {
    // a record with a value and an optional link to the next record
    Typespace {
        types: vec![product_ty(vec![
            field(Some("value"), u8_ty()),
            field(
                Some("next"),
                sum_ty(vec![
                    variant(Some("some"), AlgebraicType::Ref(AlgebraicTypeRef(0))),
                    variant(Some("none"), product_ty(vec![])),
                ]),
            ),
        ])],
    }
}

fn chain(values: &[u8]) -> AlgebraicValue {
    let next = if values.len() == 1 {
        sum_val(1, unit_val())
    } else {
        sum_val(0, chain(&values[1..]))
    };
    product_val(vec![u8_val(values[0]), next])
}

fn chain_shape(values: &[u8]) -> ShapeTree {
    let next = if values.len() == 1 {
        ShapeTree::Variant {
            tag: 1,
            name: name("none"),
            payload: Box::new(ShapeTree::NamedProduct(vec![])),
        }
    } else {
        ShapeTree::Variant {
            tag: 0,
            name: name("some"),
            payload: Box::new(chain_shape(&values[1..])),
        }
    };
    ShapeTree::NamedProduct(vec![(name("value"), ShapeTree::U8(values[0])), (name("next"), next)])
}

#[test]
fn self_referential_record_goes_as_deep_as_the_value() {
    let ts = list_space();
    let ty = AlgebraicType::Ref(AlgebraicTypeRef(0));
    assert_eq!(emit(&ts, &ty, &chain(&[1])), Ok(chain_shape(&[1])));
    assert_eq!(emit(&ts, &ty, &chain(&[1, 2, 3])), Ok(chain_shape(&[1, 2, 3])));
    assert_eq!(
        emit(&ts, &ty, &chain(&[1, 2, 3])),
        Ok(ShapeTree::NamedProduct(vec![
            (name("value"), ShapeTree::U8(1)),
            (
                name("next"),
                ShapeTree::Variant {
                    tag: 0,
                    name: name("some"),
                    payload: Box::new(ShapeTree::NamedProduct(vec![
                        (name("value"), ShapeTree::U8(2)),
                        (
                            name("next"),
                            ShapeTree::Variant {
                                tag: 0,
                                name: name("some"),
                                payload: Box::new(ShapeTree::NamedProduct(vec![
                                    (name("value"), ShapeTree::U8(3)),
                                    (
                                        name("next"),
                                        ShapeTree::Variant {
                                            tag: 1,
                                            name: name("none"),
                                            payload: Box::new(ShapeTree::NamedProduct(vec![])),
                                        }
                                    ),
                                ])),
                            }
                        ),
                    ])),
                }
            ),
        ]))
    );
    let long: Vec<u8> = (0..200).collect();
    assert_eq!(emit(&ts, &ty, &chain(&long)), Ok(chain_shape(&long)));
}

#[test]
fn pairing_gives_back_what_it_was_made_of() {
    let ts = empty_space();
    let ty = u8_ty();
    let val = u8_val(1);
    let p = ValueWithType::new(&ts, &ty, &val).unwrap();
    assert_eq!(p.value(), &val);
    assert_eq!(p.ty(), &ty);
    assert_eq!(p.typespace(), &ts);
    assert!(ValueWithType::new(&ts, &ty, &bool_val(true)).is_err());
}

#[test]
fn resolve_follows_references_and_stops_at_a_type() {
    let ts = Typespace {
        types: vec![
            AlgebraicType::Ref(AlgebraicTypeRef(2)),
            AlgebraicType::Ref(AlgebraicTypeRef(1)),
            bool_ty(),
        ],
    };
    let direct = u8_ty();
    assert_eq!(ts.resolve(&direct), Some(&direct));
    assert_eq!(ts.resolve(&AlgebraicType::Ref(AlgebraicTypeRef(2))), Some(&bool_ty()));
    assert_eq!(ts.resolve(&AlgebraicType::Ref(AlgebraicTypeRef(0))), Some(&bool_ty()));
    assert_eq!(ts.resolve(&AlgebraicType::Ref(AlgebraicTypeRef(1))), None);
    assert_eq!(ts.resolve(&AlgebraicType::Ref(AlgebraicTypeRef(3))), None);
    assert_eq!(ts.resolve(&AlgebraicType::Ref(AlgebraicTypeRef(u32::MAX))), None);
    let chain = Typespace {
        types: vec![
            AlgebraicType::Ref(AlgebraicTypeRef(1)),
            AlgebraicType::Ref(AlgebraicTypeRef(2)),
            AlgebraicType::Ref(AlgebraicTypeRef(3)),
            u8_ty(),
        ],
    };
    assert_eq!(chain.resolve(&AlgebraicType::Ref(AlgebraicTypeRef(0))), Some(&u8_ty()));
}

#[test]
fn kinds_of_values_and_types() {
    assert_eq!(u8_ty().kind(), Some(Kind::Scalar(ScalarKind::U8)));
    assert_eq!(product_ty(vec![]).kind(), Some(Kind::Product));
    assert_eq!(sum_ty(vec![]).kind(), Some(Kind::Sum));
    assert_eq!(array_ty(u8_ty()).kind(), Some(Kind::Array));
    assert_eq!(map_ty(u8_ty(), u8_ty()).kind(), Some(Kind::Mapping));
    assert_eq!(AlgebraicType::Ref(AlgebraicTypeRef(0)).kind(), None);
    assert_eq!(u8_val(1).kind(), Kind::Scalar(ScalarKind::U8));
    assert_eq!(unit_val().kind(), Kind::Product);
    assert_eq!(sum_val(0, unit_val()).kind(), Kind::Sum);
    let strings = ArrayValue::String(vec!["a".to_string()]);
    assert_eq!(strings.kind(), Kind::Scalar(ScalarKind::String));
    assert_eq!(strings.len(), 1);
    assert!(!strings.is_empty());
    assert!(ArrayValue::Sum(vec![]).is_empty());
    assert_eq!(ArrayValue::Array(vec![ArrayValue::U8(vec![])]).len(), 1);
    assert_eq!(array_val(strings).kind(), Kind::Array);
    let ts = empty_space();
    assert!(u8_val(1).conforms_to(&ts, &u8_ty()));
    assert!(!u8_val(1).conforms_to(&ts, &bool_ty()));
    assert!(ProductValue { elements: vec![] }.conforms_to(&ts, &ProductType { elements: vec![] }));
    assert!(!SumValue { tag: 0, value: Box::new(unit_val()) }
        .conforms_to(&ts, &SumType { variants: vec![] }));
    assert!(MapValue::new().conforms_to(
        &ts,
        &MapType { key_ty: Box::new(u8_ty()), ty: Box::new(AlgebraicType::Ref(AlgebraicTypeRef(9))) }
    ));
}

#[test]
fn names_of_variants_and_elements() {
    assert_eq!(variant(Some("v"), u8_ty()).name(), Some("v"));
    assert_eq!(variant(None, u8_ty()).name(), None);
    assert_eq!(field(Some("f"), u8_ty()).name(), Some("f"));
    assert_eq!(field(None, u8_ty()).name(), None);
}

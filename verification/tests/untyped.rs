use sats::{
    record, serialize_elements, AlgebraicValue, ArrayValue, BuiltinValue, ProductValue,
    ShapeRecorder, ShapeTree, SumValue, F32, F64,
};

fn unit() -> ShapeTree {
    ShapeTree::SeqProduct(vec![])
}

#[test]
fn unit_is_the_empty_product() {
    assert_eq!(record(&()), unit());
}

#[test]
fn scalars_are_emitted_by_the_method_of_their_kind() {
    assert_eq!(record(&true), ShapeTree::Bool(true));
    assert_eq!(record(&-3i8), ShapeTree::I8(-3));
    assert_eq!(record(&200u8), ShapeTree::U8(200));
    assert_eq!(record(&-300i16), ShapeTree::I16(-300));
    assert_eq!(record(&60000u16), ShapeTree::U16(60000));
    assert_eq!(record(&-70000i32), ShapeTree::I32(-70000));
    assert_eq!(record(&4000000000u32), ShapeTree::U32(4000000000));
    assert_eq!(record(&i64::MIN), ShapeTree::I64(i64::MIN));
    assert_eq!(record(&u64::MAX), ShapeTree::U64(u64::MAX));
    assert_eq!(record(&i128::MIN), ShapeTree::I128(i128::MIN));
    assert_eq!(record(&u128::MAX), ShapeTree::U128(u128::MAX));
    assert_eq!(record("abc"), ShapeTree::Str("abc".to_string()));
    assert_eq!(record(&"abc".to_string()), ShapeTree::Str("abc".to_string()));
}

#[test]
fn float_wrappers_are_emitted_as_the_number() {
    let x = 1.5f32;
    let y = -2.25f64;
    assert_eq!(record(&F32::from_bits(x.to_bits())), ShapeTree::F32(F32::from_bits(0x3fc0_0000)));
    assert_eq!(
        record(&F64::from_bits(y.to_bits())),
        ShapeTree::F64(F64::from_bits(0xc002_0000_0000_0000))
    );
    assert_eq!(f32::from_bits(F32::from_bits(x.to_bits()).to_bits()), x);
    assert_eq!(f64::from_bits(F64::from_bits(y.to_bits()).to_bits()), y);
}

#[test]
fn some_is_variant_zero_around_the_value() {
    assert_eq!(
        record(&Some(7u32)),
        ShapeTree::Variant {
            tag: 0,
            name: Some("some".to_string()),
            payload: Box::new(ShapeTree::U32(7)),
        }
    );
    assert_eq!(
        record(&Some(7u32)),
        ShapeTree::Variant {
            tag: 0,
            name: Some("some".to_string()),
            payload: Box::new(record(&7u32)),
        }
    );
}

#[test]
fn none_is_variant_one_around_unit() {
    assert_eq!(
        record(&None::<u32>),
        ShapeTree::Variant { tag: 1, name: Some("none".to_string()), payload: Box::new(unit()) }
    );
}

#[test]
fn ok_and_err_are_variants_zero_and_one() {
    let ok: Result<u8, bool> = Ok(3);
    let err: Result<u8, bool> = Err(false);
    assert_eq!(
        record(&ok),
        ShapeTree::Variant {
            tag: 0,
            name: Some("ok".to_string()),
            payload: Box::new(ShapeTree::U8(3)),
        }
    );
    assert_eq!(
        record(&err),
        ShapeTree::Variant {
            tag: 1,
            name: Some("err".to_string()),
            payload: Box::new(ShapeTree::Bool(false)),
        }
    );
}

#[test]
fn bytes_take_the_bulk_path() {
    assert_eq!(record(&vec![1u8, 2, 3]), ShapeTree::Bytes(vec![1, 2, 3]));
    assert_eq!(record(&[9u8, 8][..]), ShapeTree::Bytes(vec![9, 8]));
    assert_eq!(record(&[7u8; 2]), ShapeTree::Bytes(vec![7, 7]));
    assert_eq!(record(&Vec::<u8>::new()), ShapeTree::Bytes(vec![]));
    assert_eq!(record(&ArrayValue::U8(vec![4, 5])), ShapeTree::Bytes(vec![4, 5]));
}

#[test]
fn other_vectors_go_element_by_element() {
    assert_eq!(
        record(&vec![1u16, 2]),
        ShapeTree::Array(vec![ShapeTree::U16(1), ShapeTree::U16(2)])
    );
    assert_eq!(
        record(&vec![vec![1u8], vec![]]),
        ShapeTree::Array(vec![ShapeTree::Bytes(vec![1]), ShapeTree::Bytes(vec![])])
    );
    assert_eq!(record(&Vec::<bool>::new()), ShapeTree::Array(vec![]));
}

#[test]
fn boxes_and_references_add_nothing() {
    assert_eq!(record(&Box::new(5u64)), record(&5u64));
    assert_eq!(record(&&5u64), record(&5u64));
}

#[test]
fn sum_value_has_no_name() {
    let v = SumValue { tag: 2, value: Box::new(AlgebraicValue::Builtin(BuiltinValue::I32(-1))) };
    assert_eq!(
        record(&v),
        ShapeTree::Variant { tag: 2, name: None, payload: Box::new(ShapeTree::I32(-1)) }
    );
    assert_eq!(record(&AlgebraicValue::Sum(v)), ShapeTree::Variant {
        tag: 2,
        name: None,
        payload: Box::new(ShapeTree::I32(-1)),
    });
}

#[test]
fn product_value_is_a_product_without_names() {
    let v = ProductValue {
        elements: vec![
            AlgebraicValue::Builtin(BuiltinValue::Bool(true)),
            AlgebraicValue::Builtin(BuiltinValue::String("x".to_string())),
            AlgebraicValue::Product(ProductValue { elements: vec![] }),
        ],
    };
    assert_eq!(
        record(&v),
        ShapeTree::SeqProduct(vec![
            ShapeTree::Bool(true),
            ShapeTree::Str("x".to_string()),
            ShapeTree::SeqProduct(vec![]),
        ])
    );
}

#[test]
fn wrappers_of_the_model_are_transparent() {
    let inner = ArrayValue::I64(vec![1, -1]);
    let expected = ShapeTree::Array(vec![ShapeTree::I64(1), ShapeTree::I64(-1)]);
    assert_eq!(record(&inner), expected);
    assert_eq!(record(&BuiltinValue::Array { val: ArrayValue::I64(vec![1, -1]) }), expected);
    assert_eq!(
        record(&AlgebraicValue::Builtin(BuiltinValue::Array { val: ArrayValue::I64(vec![1, -1]) })),
        expected
    );
}

#[test]
fn nested_arrays_go_element_by_element() {
    let v = ArrayValue::Array(vec![ArrayValue::U8(vec![1]), ArrayValue::Bool(vec![false])]);
    assert_eq!(
        record(&v),
        ShapeTree::Array(vec![
            ShapeTree::Bytes(vec![1]),
            ShapeTree::Array(vec![ShapeTree::Bool(false)]),
        ])
    );
    let sums = ArrayValue::Sum(vec![SumValue {
        tag: 0,
        value: Box::new(AlgebraicValue::Builtin(BuiltinValue::U8(1))),
    }]);
    assert_eq!(
        record(&sums),
        ShapeTree::Array(vec![ShapeTree::Variant {
            tag: 0,
            name: None,
            payload: Box::new(ShapeTree::U8(1)),
        }])
    );
}

#[test]
fn a_run_of_values_goes_element_by_element() {
    let rec = ShapeRecorder;
    assert_eq!(
        serialize_elements(&[1u8, 2][..], &rec),
        Ok(ShapeTree::Array(vec![ShapeTree::U8(1), ShapeTree::U8(2)]))
    );
    assert_eq!(serialize_elements::<bool, _>(&[], &rec), Ok(ShapeTree::Array(vec![])));
    assert_eq!(
        record(&vec![Some(1u8), None]),
        ShapeTree::Array(vec![
            ShapeTree::Variant {
                tag: 0,
                name: Some("some".to_string()),
                payload: Box::new(ShapeTree::U8(1)),
            },
            ShapeTree::Variant { tag: 1, name: Some("none".to_string()), payload: Box::new(unit()) },
        ])
    );
    assert_eq!(
        record(&vec![
            AlgebraicValue::Builtin(BuiltinValue::U8(1)),
            AlgebraicValue::Product(ProductValue { elements: vec![] }),
        ]),
        ShapeTree::Array(vec![ShapeTree::U8(1), unit()])
    );
}

use sats::{
    compare_strs, record, AlgebraicValue, ArrayValue, BuiltinValue, Kind, MapValue, Order,
    ProductValue, ScalarKind, ShapeTree, SumValue, F32, F64,
};

fn u8_val(v: u8) -> AlgebraicValue {
    AlgebraicValue::Builtin(BuiltinValue::U8(v))
}

fn i32_val(v: i32) -> AlgebraicValue {
    AlgebraicValue::Builtin(BuiltinValue::I32(v))
}

fn string_val(v: &str) -> AlgebraicValue {
    AlgebraicValue::Builtin(BuiltinValue::String(v.to_string()))
}

fn f32_val(v: f32) -> AlgebraicValue {
    AlgebraicValue::Builtin(BuiltinValue::F32(F32::from_bits(v.to_bits())))
}

fn f64_val(v: f64) -> AlgebraicValue {
    AlgebraicValue::Builtin(BuiltinValue::F64(F64::from_bits(v.to_bits())))
}

fn keys(m: &MapValue) -> Vec<&AlgebraicValue> {
    (0..m.len()).map(|i| m.key(i)).collect()
}

#[test]
fn new_map_is_empty() {
    let m = MapValue::new();
    assert_eq!(m.len(), 0);
    assert!(m.is_empty());
    assert_eq!(m.get(&u8_val(1)), None);
    assert!(!m.contains_key(&u8_val(1)));
    assert_eq!(record(&m), ShapeTree::Mapping(vec![]));
}

#[test]
fn entries_come_out_in_key_order_whatever_the_order_they_went_in() {
    let mut a = MapValue::new();
    a.insert(u8_val(3), string_val("three"));
    a.insert(u8_val(1), string_val("one"));
    a.insert(u8_val(2), string_val("two"));
    let mut b = MapValue::new();
    b.insert(u8_val(2), string_val("two"));
    b.insert(u8_val(3), string_val("three"));
    b.insert(u8_val(1), string_val("one"));
    let expected = ShapeTree::Mapping(vec![
        (ShapeTree::U8(1), ShapeTree::Str("one".to_string())),
        (ShapeTree::U8(2), ShapeTree::Str("two".to_string())),
        (ShapeTree::U8(3), ShapeTree::Str("three".to_string())),
    ]);
    assert_eq!(record(&a), expected);
    assert_eq!(record(&b), expected);
    assert_eq!(a, b);
    assert_eq!(a.compare(&b), Order::Equal);
}

#[test]
fn insert_answers_the_value_that_was_there() {
    let mut m = MapValue::new();
    assert_eq!(m.insert(u8_val(1), string_val("one")), None);
    assert_eq!(m.insert(u8_val(2), string_val("two")), None);
    assert_eq!(m.insert(u8_val(1), string_val("uno")), Some(string_val("one")));
    assert_eq!(m.len(), 2);
    assert_eq!(m.get(&u8_val(1)), Some(&string_val("uno")));
    assert_eq!(m.get(&u8_val(2)), Some(&string_val("two")));
    assert_eq!(m.get(&u8_val(3)), None);
    assert!(m.contains_key(&u8_val(2)));
    assert!(!m.contains_key(&i32_val(2)));
    assert_eq!(m.key(0), &u8_val(1));
    assert_eq!(m.value(0), &string_val("uno"));
}

#[test]
fn kinds_come_in_their_order() {
    let sum = AlgebraicValue::Sum(SumValue { tag: 0, value: Box::new(u8_val(0)) });
    let product = AlgebraicValue::Product(ProductValue { elements: vec![] });
    let array = AlgebraicValue::Builtin(BuiltinValue::Array { val: ArrayValue::U8(vec![]) });
    let map = AlgebraicValue::Builtin(BuiltinValue::Mapping { val: MapValue::new() });
    let in_order = [
        sum,
        product,
        AlgebraicValue::Builtin(BuiltinValue::Bool(true)),
        AlgebraicValue::Builtin(BuiltinValue::I8(-1)),
        u8_val(0),
        AlgebraicValue::Builtin(BuiltinValue::I16(-1)),
        AlgebraicValue::Builtin(BuiltinValue::U16(0)),
        i32_val(-1),
        AlgebraicValue::Builtin(BuiltinValue::U32(0)),
        AlgebraicValue::Builtin(BuiltinValue::I64(-1)),
        AlgebraicValue::Builtin(BuiltinValue::U64(0)),
        AlgebraicValue::Builtin(BuiltinValue::I128(-1)),
        AlgebraicValue::Builtin(BuiltinValue::U128(0)),
        f32_val(0.0),
        f64_val(0.0),
        string_val(""),
        array,
        map,
    ];
    for i in 0..in_order.len() {
        for j in 0..in_order.len() {
            let expected = if i < j {
                Order::Less
            } else if i == j {
                Order::Equal
            } else {
                Order::Greater
            };
            assert_eq!(in_order[i].compare(&in_order[j]), expected);
        }
    }
    assert_eq!(Kind::Sum.place(), 0);
    assert_eq!(Kind::Product.place(), 1);
    assert_eq!(Kind::Scalar(ScalarKind::Bool).place(), 2);
    assert_eq!(Kind::Scalar(ScalarKind::String).place(), 15);
    assert_eq!(Kind::Array.place(), 16);
    assert_eq!(Kind::Mapping.place(), 17);
    assert_eq!(in_order[4].kind(), Kind::Scalar(ScalarKind::U8));
}

#[test]
fn integers_come_by_value() {
    assert_eq!(i32_val(-5).compare(&i32_val(3)), Order::Less);
    assert_eq!(i32_val(3).compare(&i32_val(3)), Order::Equal);
    assert_eq!(i32_val(4).compare(&i32_val(3)), Order::Greater);
    let f = AlgebraicValue::Builtin(BuiltinValue::Bool(false));
    let t = AlgebraicValue::Builtin(BuiltinValue::Bool(true));
    assert_eq!(f.compare(&t), Order::Less);
    assert_eq!(t.compare(&f), Order::Greater);
    assert_eq!(t.compare(&t), Order::Equal);
}

#[test]
fn floating_point_numbers_come_by_size() {
    assert_eq!(F32::from_bits(0x3f80_0000).key(), 0xbf80_0000);
    assert_eq!(F32::from_bits(0xbf80_0000).key(), 0x407f_ffff);
    assert_eq!(F32::from_bits(0).key(), 0x8000_0000);
    assert_eq!(F32::from_bits(0x8000_0000).key(), 0x7fff_ffff);
    assert_eq!(F64::from_bits(0x3ff0_0000_0000_0000).key(), 0xbff0_0000_0000_0000);
    assert_eq!(F64::from_bits(0xbff0_0000_0000_0000).key(), 0x400f_ffff_ffff_ffff);
    let in_order = [f32::NEG_INFINITY, -2.5, -1.0, -0.0, 0.0, 1.0, 2.5, f32::INFINITY, f32::NAN];
    for i in 0..in_order.len() {
        for j in 0..in_order.len() {
            let expected = if i < j {
                Order::Less
            } else if i == j {
                Order::Equal
            } else {
                Order::Greater
            };
            assert_eq!(f32_val(in_order[i]).compare(&f32_val(in_order[j])), expected);
            assert_eq!(
                f64_val(in_order[i] as f64).compare(&f64_val(in_order[j] as f64)),
                expected
            );
        }
    }
    let mut m = MapValue::new();
    m.insert(f32_val(1.0), u8_val(1));
    m.insert(f32_val(-1.0), u8_val(2));
    m.insert(f32_val(0.0), u8_val(3));
    assert_eq!(keys(&m), vec![&f32_val(-1.0), &f32_val(0.0), &f32_val(1.0)]);
}

#[test]
fn strings_come_by_their_characters() {
    assert_eq!(compare_strs("", ""), Order::Equal);
    assert_eq!(compare_strs("", "a"), Order::Less);
    assert_eq!(compare_strs("a", ""), Order::Greater);
    assert_eq!(compare_strs("a", "ab"), Order::Less);
    assert_eq!(compare_strs("ab", "b"), Order::Less);
    assert_eq!(compare_strs("b", "ab"), Order::Greater);
    assert_eq!(compare_strs("abc", "abc"), Order::Equal);
    assert_eq!(compare_strs("z", "é"), Order::Less);
    assert_eq!(compare_strs("é", "日本"), Order::Less);
    assert_eq!(compare_strs("日本", "日本語"), Order::Less);
    assert_eq!(string_val("b").compare(&string_val("a")), Order::Greater);
    let words = ["pear", "apple", "fig", "apples", ""];
    let mut m = MapValue::new();
    for w in words {
        m.insert(string_val(w), u8_val(0));
    }
    assert_eq!(
        keys(&m),
        vec![
            &string_val(""),
            &string_val("apple"),
            &string_val("apples"),
            &string_val("fig"),
            &string_val("pear"),
        ]
    );
    let mut sorted = words.to_vec();
    sorted.sort();
    let expected: Vec<AlgebraicValue> = sorted.iter().map(|w| string_val(w)).collect();
    assert_eq!(keys(&m), expected.iter().collect::<Vec<_>>());
}

#[test]
fn sums_products_arrays_and_maps_come_by_their_contents() {
    let sum = |tag: u8, v: u8| AlgebraicValue::Sum(SumValue { tag, value: Box::new(u8_val(v)) });
    assert_eq!(sum(0, 9).compare(&sum(1, 0)), Order::Less);
    assert_eq!(sum(1, 1).compare(&sum(1, 2)), Order::Less);
    assert_eq!(sum(1, 2).compare(&sum(1, 2)), Order::Equal);
    let product = |v: Vec<u8>| {
        AlgebraicValue::Product(ProductValue { elements: v.into_iter().map(u8_val).collect() })
    };
    assert_eq!(product(vec![]).compare(&product(vec![0])), Order::Less);
    assert_eq!(product(vec![1, 2]).compare(&product(vec![1, 3])), Order::Less);
    assert_eq!(product(vec![2]).compare(&product(vec![1, 3])), Order::Greater);
    assert_eq!(product(vec![1, 3]).compare(&product(vec![1, 3])), Order::Equal);
    let bytes = |v: Vec<u8>| ArrayValue::U8(v);
    assert_eq!(bytes(vec![1, 2]).compare(&bytes(vec![1, 2, 0])), Order::Less);
    assert_eq!(bytes(vec![9]).compare(&ArrayValue::I16(vec![])), Order::Less);
    assert_eq!(ArrayValue::Bool(vec![true]).compare(&bytes(vec![])), Order::Less);
    assert_eq!(
        ArrayValue::String(vec!["b".to_string()])
            .compare(&ArrayValue::String(vec!["a".to_string(), "c".to_string()])),
        Order::Greater
    );
    assert_eq!(
        ArrayValue::Array(vec![bytes(vec![1])]).compare(&ArrayValue::Array(vec![bytes(vec![2])])),
        Order::Less
    );
    let map = |entries: Vec<(u8, u8)>| {
        let mut m = MapValue::new();
        for (k, v) in entries {
            m.insert(u8_val(k), u8_val(v));
        }
        m
    };
    assert_eq!(map(vec![]).compare(&map(vec![(0, 0)])), Order::Less);
    assert_eq!(map(vec![(1, 5)]).compare(&map(vec![(2, 0)])), Order::Less);
    assert_eq!(map(vec![(1, 5)]).compare(&map(vec![(1, 6)])), Order::Less);
    assert_eq!(map(vec![(1, 5), (2, 0)]).compare(&map(vec![(1, 5)])), Order::Greater);
    assert_eq!(map(vec![(2, 0), (1, 5)]).compare(&map(vec![(1, 5), (2, 0)])), Order::Equal);
}

#[test]
fn maps_can_be_keys() {
    let mut inner_a = MapValue::new();
    inner_a.insert(u8_val(1), u8_val(1));
    let mut inner_b = MapValue::new();
    inner_b.insert(u8_val(0), u8_val(1));
    let key = |m: MapValue| AlgebraicValue::Builtin(BuiltinValue::Mapping { val: m });
    let mut m = MapValue::new();
    m.insert(key(inner_a), u8_val(10));
    m.insert(key(inner_b), u8_val(20));
    assert_eq!(
        record(&m),
        ShapeTree::Mapping(vec![
            (ShapeTree::Mapping(vec![(ShapeTree::U8(0), ShapeTree::U8(1))]), ShapeTree::U8(20)),
            (ShapeTree::Mapping(vec![(ShapeTree::U8(1), ShapeTree::U8(1))]), ShapeTree::U8(10)),
        ])
    );
}

#[test]
fn many_keys_in_any_order() {
    let mut up = MapValue::new();
    let mut down = MapValue::new();
    let mut mixed = MapValue::new();
    for i in 0..100u8 {
        up.insert(u8_val(i), i32_val(i as i32 * 2));
        down.insert(u8_val(99 - i), i32_val((99 - i) as i32 * 2));
        let k = (i as u32 * 37 % 100) as u8;
        mixed.insert(u8_val(k), i32_val(k as i32 * 2));
    }
    assert_eq!(up, down);
    assert_eq!(up, mixed);
    assert_eq!(up.len(), 100);
    for i in 0..100usize {
        assert_eq!(up.key(i), &u8_val(i as u8));
        assert_eq!(up.value(i), &i32_val(i as i32 * 2));
    }
    assert_eq!(record(&up), record(&mixed));
}

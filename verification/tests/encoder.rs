use sats::{
    record, AlgebraicType, AlgebraicValue, ArrayValue, BuiltinType, BuiltinValue, MapValue,
    ProductType, ProductTypeElement, ProductValue, RecordError, Serialize, SerializeArray,
    SerializeMap, SerializeNamedProduct, SerializeSeqProduct, Serializer, ShapeRecorder, ShapeTree,
    SumValue, Typespace, ValueWithType, F32, F64,
};
use std::cell::Cell;

/// An encoder that writes a line of text and fails on the byte 13.
struct Text<'a> {
    calls: &'a Cell<usize>,
}

#[derive(Debug, PartialEq)]
struct Unlucky(u8);

struct Items<'a> {
    open: char,
    close: char,
    items: Vec<String>,
    calls: &'a Cell<usize>,
}

impl<'a> Items<'a> {
    fn push(mut self, item: String) -> Result<Self, Unlucky> {
        self.calls.set(self.calls.get() + 1);
        self.items.push(item);
        Ok(self)
    }

    fn close(self) -> Result<String, Unlucky> {
        self.calls.set(self.calls.get() + 1);
        Ok(format!("{}{}{}", self.open, self.items.join(","), self.close))
    }
}

impl<'a> SerializeArray for Items<'a> {
    type Ok = String;
    type Error = Unlucky;

    fn serialize_element(self, elem: String) -> Result<Self, Unlucky> {
        self.push(elem)
    }

    fn end(self) -> Result<String, Unlucky> {
        self.close()
    }
}

impl<'a> SerializeSeqProduct for Items<'a> {
    type Ok = String;
    type Error = Unlucky;

    fn serialize_element(self, elem: String) -> Result<Self, Unlucky> {
        self.push(elem)
    }

    fn end(self) -> Result<String, Unlucky> {
        self.close()
    }
}

impl<'a> SerializeNamedProduct for Items<'a> {
    type Ok = String;
    type Error = Unlucky;

    fn serialize_element(self, name: Option<&str>, elem: String) -> Result<Self, Unlucky> {
        self.push(format!("{}={}", name.unwrap_or("_"), elem))
    }

    fn end(self) -> Result<String, Unlucky> {
        self.close()
    }
}

impl<'a> SerializeMap for Items<'a> {
    type Ok = String;
    type Error = Unlucky;

    fn serialize_entry(self, key: String, value: String) -> Result<Self, Unlucky> {
        self.push(format!("{}:{}", key, value))
    }

    fn end(self) -> Result<String, Unlucky> {
        self.close()
    }
}

impl<'a> Text<'a> {
    fn scalar(&self, text: String) -> Result<String, Unlucky> {
        self.calls.set(self.calls.get() + 1);
        Ok(text)
    }

    fn items(&self, open: char, close: char) -> Result<Items<'a>, Unlucky> {
        self.calls.set(self.calls.get() + 1);
        Ok(Items { open, close, items: vec![], calls: self.calls })
    }
}

impl<'a> Serializer for Text<'a> {
    type Ok = String;
    type Error = Unlucky;
    type SerializeArray = Items<'a>;
    type SerializeMap = Items<'a>;
    type SerializeSeqProduct = Items<'a>;
    type SerializeNamedProduct = Items<'a>;

    fn serialize_bool(&self, v: bool) -> Result<String, Unlucky> {
        self.scalar(v.to_string())
    }

    fn serialize_i8(&self, v: i8) -> Result<String, Unlucky> {
        self.scalar(v.to_string())
    }

    fn serialize_u8(&self, v: u8) -> Result<String, Unlucky> {
        self.calls.set(self.calls.get() + 1);
        if v == 13 {
            Err(Unlucky(v))
        } else {
            Ok(v.to_string())
        }
    }

    fn serialize_i16(&self, v: i16) -> Result<String, Unlucky> {
        self.scalar(v.to_string())
    }

    fn serialize_u16(&self, v: u16) -> Result<String, Unlucky> {
        self.scalar(v.to_string())
    }

    fn serialize_i32(&self, v: i32) -> Result<String, Unlucky> {
        self.scalar(v.to_string())
    }

    fn serialize_u32(&self, v: u32) -> Result<String, Unlucky> {
        self.scalar(v.to_string())
    }

    fn serialize_i64(&self, v: i64) -> Result<String, Unlucky> {
        self.scalar(v.to_string())
    }

    fn serialize_u64(&self, v: u64) -> Result<String, Unlucky> {
        self.scalar(v.to_string())
    }

    fn serialize_i128(&self, v: i128) -> Result<String, Unlucky> {
        self.scalar(v.to_string())
    }

    fn serialize_u128(&self, v: u128) -> Result<String, Unlucky> {
        self.scalar(v.to_string())
    }

    fn serialize_f32(&self, v: F32) -> Result<String, Unlucky> {
        self.scalar(f32::from_bits(v.to_bits()).to_string())
    }

    fn serialize_f64(&self, v: F64) -> Result<String, Unlucky> {
        self.scalar(f64::from_bits(v.to_bits()).to_string())
    }

    fn serialize_str(&self, v: &str) -> Result<String, Unlucky> {
        self.scalar(format!("{:?}", v))
    }

    fn serialize_bytes(&self, v: &[u8]) -> Result<String, Unlucky> {
        self.scalar(format!("#{}", v.iter().map(|b| format!("{:02x}", b)).collect::<String>()))
    }

    fn serialize_array(&self, _len: usize) -> Result<Items<'a>, Unlucky> {
        self.items('[', ']')
    }

    fn serialize_map(&self, _len: usize) -> Result<Items<'a>, Unlucky> {
        self.items('{', '}')
    }

    fn serialize_seq_product(&self, _len: usize) -> Result<Items<'a>, Unlucky> {
        self.items('(', ')')
    }

    fn serialize_named_product(&self, _len: usize) -> Result<Items<'a>, Unlucky> {
        self.items('(', ')')
    }

    fn serialize_variant(
        &self,
        tag: u8,
        name: Option<&str>,
        value: String,
    ) -> Result<String, Unlucky> {
        self.calls.set(self.calls.get() + 1);
        Ok(match name {
            Some(n) => format!("{}/{}<{}>", tag, n, value),
            None => format!("{}<{}>", tag, value),
        })
    }
}

fn u8_val(v: u8) -> AlgebraicValue {
    AlgebraicValue::Builtin(BuiltinValue::U8(v))
}

fn text<T: Serialize + ?Sized>(value: &T) -> (Result<String, Unlucky>, usize) {
    let calls = Cell::new(0);
    let r = value.serialize(&Text { calls: &calls });
    (r, calls.get())
}

#[test]
fn another_encoder_is_driven_the_same_way() {
    assert_eq!(text(&true), (Ok("true".to_string()), 1));
    assert_eq!(text(&Some(5u16)), (Ok("0/some<5>".to_string()), 2));
    assert_eq!(text(&None::<u16>), (Ok("1/none<()>".to_string()), 3));
    assert_eq!(text(&vec![1u8, 2, 255]), (Ok("#0102ff".to_string()), 1));
    assert_eq!(text(&vec![-1i8, 2]), (Ok("[-1,2]".to_string()), 6));
    assert_eq!(text("a\"b"), (Ok("\"a\\\"b\"".to_string()), 1));
    assert_eq!(text(&F32::from_bits(1.5f32.to_bits())), (Ok("1.5".to_string()), 1));
    assert_eq!(text(&F64::from_bits((-0.25f64).to_bits())), (Ok("-0.25".to_string()), 1));
    let value = AlgebraicValue::Product(ProductValue {
        elements: vec![
            u8_val(1),
            AlgebraicValue::Sum(SumValue { tag: 3, value: Box::new(u8_val(2)) }),
            AlgebraicValue::Builtin(BuiltinValue::Array { val: ArrayValue::U8(vec![7]) }),
        ],
    });
    assert_eq!(text(&value), (Ok("(1,3<2>,#07)".to_string()), 9));
    let mut m = MapValue::new();
    m.insert(u8_val(2), u8_val(20));
    m.insert(u8_val(1), u8_val(10));
    assert_eq!(text(&m), (Ok("{1:10,2:20}".to_string()), 8));
}

#[test]
fn the_error_of_the_encoder_comes_back_unchanged() {
    assert_eq!(text(&13u8), (Err(Unlucky(13)), 1));
    assert_eq!(text(&Some(13u8)), (Err(Unlucky(13)), 1));
    let value = AlgebraicValue::Product(ProductValue {
        elements: vec![u8_val(1), u8_val(13), u8_val(2)],
    });
    // the product is started, the first element emitted and taken, the second fails
    assert_eq!(text(&value), (Err(Unlucky(13)), 4));
    let mut m = MapValue::new();
    m.insert(u8_val(1), u8_val(13));
    m.insert(u8_val(2), u8_val(0));
    assert_eq!(text(&m), (Err(Unlucky(13)), 3));
    let mut m = MapValue::new();
    m.insert(u8_val(13), u8_val(1));
    assert_eq!(text(&m), (Err(Unlucky(13)), 2));
}

#[test]
fn names_reach_the_encoder_with_a_type() {
    let ts = Typespace::new();
    let ty = AlgebraicType::Product(ProductType {
        elements: vec![
            ProductTypeElement {
                name: Some("a".to_string()),
                algebraic_type: AlgebraicType::Builtin(BuiltinType::U8),
            },
            ProductTypeElement {
                name: None,
                algebraic_type: AlgebraicType::Builtin(BuiltinType::U8),
            },
        ],
    });
    let good = AlgebraicValue::Product(ProductValue { elements: vec![u8_val(1), u8_val(2)] });
    let p = ValueWithType::new(&ts, &ty, &good).unwrap();
    assert_eq!(text(&p), (Ok("(a=1,_=2)".to_string()), 6));
    let bad = AlgebraicValue::Product(ProductValue { elements: vec![u8_val(1), u8_val(13)] });
    let p = ValueWithType::new(&ts, &ty, &bad).unwrap();
    assert_eq!(text(&p), (Err(Unlucky(13)), 4));
}

#[test]
fn builders_of_the_recorder_count() {
    let rec = ShapeRecorder;
    assert_eq!(rec.serialize_array(0).unwrap().end(), Ok(ShapeTree::Array(vec![])));
    assert_eq!(rec.serialize_array(1).unwrap().end(), Err(RecordError::MissingItems));
    assert!(matches!(
        rec.serialize_array(0).unwrap().serialize_element(ShapeTree::Bool(true)),
        Err(RecordError::TooManyItems)
    ));
    let b = rec.serialize_seq_product(2).unwrap();
    let b = b.serialize_element(ShapeTree::U8(1)).ok().unwrap();
    let b = b.serialize_element(ShapeTree::U8(2)).ok().unwrap();
    assert_eq!(b.end(), Ok(ShapeTree::SeqProduct(vec![ShapeTree::U8(1), ShapeTree::U8(2)])));
    assert_eq!(rec.serialize_map(1).unwrap().end(), Err(RecordError::MissingItems));
    assert!(matches!(
        rec.serialize_map(0).unwrap().serialize_entry(ShapeTree::U8(1), ShapeTree::U8(2)),
        Err(RecordError::TooManyItems)
    ));
    assert_eq!(rec.serialize_named_product(1).unwrap().end(), Err(RecordError::MissingItems));
    assert!(matches!(
        rec.serialize_named_product(0).unwrap().serialize_element(None, ShapeTree::U8(1)),
        Err(RecordError::TooManyItems)
    ));
    let b = rec.serialize_named_product(1).unwrap();
    let b = b.serialize_element(Some("n"), ShapeTree::U8(1)).ok().unwrap();
    assert_eq!(
        b.end(),
        Ok(ShapeTree::NamedProduct(vec![(Some("n".to_string()), ShapeTree::U8(1))]))
    );
    assert_eq!(
        rec.serialize_variant(4, Some("v"), ShapeTree::Bool(false)),
        Ok(ShapeTree::Variant {
            tag: 4,
            name: Some("v".to_string()),
            payload: Box::new(ShapeTree::Bool(false)),
        })
    );
    assert_eq!(rec.serialize_bytes(&[1, 2]), Ok(ShapeTree::Bytes(vec![1, 2])));
    assert_eq!(rec.serialize_str("s"), Ok(ShapeTree::Str("s".to_string())));
    assert_eq!(record(&7u8), rec.serialize_u8(7).unwrap());
}

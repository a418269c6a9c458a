use azure_messaging_eventhubs::value::{
    AmqpDescribed, AmqpDescriptor, AmqpList, AmqpOrderedMap, AmqpSymbol, AmqpTimestamp, AmqpValue,
};

#[test]
fn test_value_create_specific() {
    let uuid = uuid::Uuid::new_v4().as_u128();
    let timestamp = AmqpTimestamp(1_700_000_000_000);
    let v1 = AmqpValue::Boolean(true);
    let v2 = AmqpValue::UByte(1);
    let v3 = AmqpValue::UShort(2);
    let v4 = AmqpValue::UInt(3);
    let v5 = AmqpValue::ULong(4);
    let v6 = AmqpValue::Byte(5);
    let v7 = AmqpValue::Short(6);
    let v8 = AmqpValue::Int(7);
    let v9 = AmqpValue::Long(8);
    let v10 = AmqpValue::Float(9.0f32.to_bits());
    let v11 = AmqpValue::Double(10.0f64.to_bits());
    let v12 = AmqpValue::Char('a');
    let v13 = AmqpValue::TimeStamp(timestamp);
    let v14 = AmqpValue::Uuid(uuid);
    let v15 = AmqpValue::Binary(vec![1, 2, 3]);
    let v16 = AmqpValue::String("hello".to_string());
    let v17 = AmqpValue::Symbol(AmqpSymbol("hello".to_string()));
    let v18 = AmqpValue::List(AmqpList(vec![AmqpValue::Int(1), AmqpValue::Int(2)]));
    let v19 = AmqpValue::OrderedMap(AmqpOrderedMap::new());
    let v20 = AmqpValue::Array(vec![AmqpValue::Int(1), AmqpValue::Int(2)]);
    let v21 = AmqpValue::Described(Box::new(AmqpDescribed {
        descriptor: AmqpDescriptor::Code(23),
        value: AmqpValue::Int(2),
    }));
    let v22 = AmqpValue::Described(Box::new(AmqpDescribed {
        descriptor: AmqpDescriptor::Name(AmqpSymbol("name".to_string())),
        value: AmqpValue::Int(2),
    }));
    let v23 = AmqpValue::Unknown;

    assert_eq!(v1, AmqpValue::Boolean(true));
    assert_eq!(v2, AmqpValue::UByte(1));
    assert_eq!(v3, AmqpValue::UShort(2));
    assert_eq!(v4, AmqpValue::UInt(3));
    assert_eq!(v5, AmqpValue::ULong(4));
    assert_eq!(v6, AmqpValue::Byte(5));
    assert_eq!(v7, AmqpValue::Short(6));
    assert_eq!(v8, AmqpValue::Int(7));
    assert_eq!(v9, AmqpValue::Long(8));
    assert_eq!(v10, AmqpValue::Float(9.0f32.to_bits()));
    assert_eq!(v11, AmqpValue::Double(10.0f64.to_bits()));
    assert_eq!(v12, AmqpValue::Char('a'));
    assert_eq!(v13, AmqpValue::TimeStamp(timestamp));
    assert_eq!(v14, AmqpValue::Uuid(uuid));
    assert_eq!(v15, AmqpValue::Binary(vec![1, 2, 3]));
    assert_eq!(v16, AmqpValue::String("hello".to_string()));
    assert_eq!(v17, AmqpValue::Symbol(AmqpSymbol("hello".to_string())));
    assert_eq!(v18, AmqpValue::List(AmqpList(vec![AmqpValue::Int(1), AmqpValue::Int(2)])));
    assert_eq!(v19, AmqpValue::OrderedMap(AmqpOrderedMap::new()));
    assert_eq!(v20, AmqpValue::Array(vec![AmqpValue::Int(1), AmqpValue::Int(2)]));
    assert_eq!(
        v21,
        AmqpValue::Described(Box::new(AmqpDescribed {
            descriptor: AmqpDescriptor::Code(23),
            value: AmqpValue::Int(2)
        }))
    );
    assert_eq!(
        v22,
        AmqpValue::Described(Box::new(AmqpDescribed {
            descriptor: AmqpDescriptor::Name("name".to_string().into()),
            value: AmqpValue::Int(2)
        }))
    );
    assert_eq!(v23, AmqpValue::Unknown);
}

fn round_trip<T>(saved_value: T, expected: AmqpValue)
where
    T: Clone + PartialEq + std::fmt::Debug + Into<AmqpValue> + TryFrom<AmqpValue>,
    <T as TryFrom<AmqpValue>>::Error: std::fmt::Debug,
{
    let v: AmqpValue = saved_value.clone().into();
    assert_eq!(v, expected);
    assert_eq!(expected, v);
    let b: T = T::try_from(v).unwrap();
    assert_eq!(b, saved_value);
}

#[test]
fn test_value_implicit_conversions() {
    round_trip(true, AmqpValue::Boolean(true));
    round_trip(1u8, AmqpValue::UByte(1));
    round_trip(2u16, AmqpValue::UShort(2));
    round_trip(3u32, AmqpValue::UInt(3));
    round_trip(4u64, AmqpValue::ULong(4));
    round_trip(5i8, AmqpValue::Byte(5));
    round_trip(6i16, AmqpValue::Short(6));
    round_trip(7i32, AmqpValue::Int(7));
    round_trip(8i64, AmqpValue::Long(8));
    round_trip('a', AmqpValue::Char('a'));
    round_trip(AmqpTimestamp(1_700_000_000_000), AmqpValue::TimeStamp(AmqpTimestamp(1_700_000_000_000)));
    round_trip(vec![1u8, 2, 3], AmqpValue::Binary(vec![1, 2, 3]));
    round_trip("hello".to_string(), AmqpValue::String("hello".to_string()));
    round_trip(
        AmqpSymbol("hello".to_string()),
        AmqpValue::Symbol(AmqpSymbol("hello".to_string())),
    );
    round_trip(
        vec![AmqpValue::Int(1), AmqpValue::Int(2)],
        AmqpValue::Array(vec![AmqpValue::Int(1), AmqpValue::Int(2)]),
    );
    round_trip(
        AmqpOrderedMap::<AmqpValue, AmqpValue>::new(),
        AmqpValue::OrderedMap(AmqpOrderedMap::new()),
    );

    {
        let list = AmqpList(vec![AmqpValue::Int(1), AmqpValue::Float(2.75f32.to_bits())]);
        let v: AmqpValue = AmqpValue::from(AmqpList(vec![
            AmqpValue::Int(1),
            AmqpValue::Float(2.75f32.to_bits()),
        ]));
        assert_eq!(v, AmqpValue::List(AmqpList(vec![AmqpValue::Int(1), AmqpValue::Float(2.75f32.to_bits())])));
        let b = AmqpList::try_from(v).unwrap();
        assert_eq!(b, list);
    }

    {
        let described = AmqpDescribed {
            descriptor: AmqpDescriptor::Code(23),
            value: AmqpValue::Int(2),
        };
        let v: AmqpValue = AmqpValue::Described(Box::new(AmqpDescribed {
            descriptor: AmqpDescriptor::Code(23),
            value: AmqpValue::Int(2),
        }));
        assert_eq!(
            v,
            AmqpValue::Described(Box::new(AmqpDescribed {
                descriptor: AmqpDescriptor::Code(23),
                value: AmqpValue::Int(2),
            }))
        );
        let b = AmqpDescribed::try_from(v).unwrap();
        assert_eq!(b, described);
    }

    {
        let v: AmqpValue = AmqpValue::Null;
        assert_eq!(v, AmqpValue::Null);
        let b: () = <()>::try_from(v).unwrap();
        assert_eq!(b, ());
    }

    {
        let v: AmqpValue = AmqpValue::Unknown;
        assert_eq!(v, AmqpValue::Unknown);
    }
}

#[test]
fn test_value_conversion_of_wrong_variant_fails() {
    let v = AmqpValue::Int(7);
    assert_eq!(bool::try_from(AmqpValue::Int(7)), Err(AmqpValue::Int(7)));
    assert_eq!(String::try_from(v), Err(AmqpValue::Int(7)));
}

#[test]
fn test_amqp_ordered_map() {
    let mut map = AmqpOrderedMap::new();
    map.insert("key1".to_string(), 1);
    map.insert("key2".to_string(), 2);
    map.insert("key3".to_string(), 3);

    assert_eq!(map.get("key1".to_string()), Some(&1));
    assert_eq!(map.get("key2".to_string()), Some(&2));
    assert_eq!(map.get("key3".to_string()), Some(&3));
    assert_eq!(map.get("key4".to_string()), None);

    assert_eq!(map.remove(&"key1".to_string()), Some(1));
    assert_eq!(map.remove(&"key1".to_string()), None);
    assert_eq!(map.get("key1".to_string()), None);
}

#[test]
fn test_ordered_map_lookup_finds_first_entry() {
    let mut map = AmqpOrderedMap::new();
    map.insert("key".to_string(), 1);
    map.insert("other".to_string(), 2);
    map.insert("key".to_string(), 3);
    assert_eq!(map.len(), 3);
    assert_eq!(map.get("key".to_string()), Some(&1));
    assert!(map.contains_key("key".to_string()));
    assert_eq!(map.remove(&"key".to_string()), Some(1));
    assert_eq!(map.get("key".to_string()), Some(&3));
    assert_eq!(map.remove(&"key".to_string()), Some(3));
    assert!(!map.contains_key("key".to_string()));
    assert_eq!(map.get("other".to_string()), Some(&2));
}

#[test]
fn test_ordered_map_keeps_insertion_order() {
    let mut map = AmqpOrderedMap::new();
    map.insert(AmqpSymbol("b".to_string()), AmqpValue::Int(1));
    map.insert(AmqpSymbol("a".to_string()), AmqpValue::Int(2));
    let entries = map.iter();
    assert_eq!(entries.len(), 2);
    assert_eq!(entries[0].0, AmqpSymbol("b".to_string()));
    assert_eq!(entries[1].0, AmqpSymbol("a".to_string()));
    let owned = map.into_iter();
    assert_eq!(owned[1].1, AmqpValue::Int(2));
}

#[test]
fn test_value_keys_compare_by_content() {
    let mut map: AmqpOrderedMap<AmqpValue, AmqpValue> = AmqpOrderedMap::new();
    map.insert(AmqpValue::String("k".to_string()), AmqpValue::Boolean(true));
    map.insert(AmqpValue::Long(4), AmqpValue::Boolean(false));
    assert_eq!(map.get(AmqpValue::String("k".to_string())), Some(&AmqpValue::Boolean(true)));
    assert_eq!(map.get(AmqpValue::Long(4)), Some(&AmqpValue::Boolean(false)));
    assert_eq!(map.get(AmqpValue::Int(4)), None);
}

#[test]
fn test_value_float_keys_compare_as_numbers() {
    let mut map: AmqpOrderedMap<AmqpValue, AmqpValue> = AmqpOrderedMap::new();
    map.insert(AmqpValue::Float(f32::NAN.to_bits()), AmqpValue::Int(1));
    map.insert(AmqpValue::Double(0.0f64.to_bits()), AmqpValue::Int(2));
    map.insert(AmqpValue::Float(1.5f32.to_bits()), AmqpValue::Int(3));
    assert_eq!(map.get(AmqpValue::Float(f32::NAN.to_bits())), None);
    assert!(!map.contains_key(AmqpValue::Float(f32::NAN.to_bits())));
    assert_eq!(map.get(AmqpValue::Double((-0.0f64).to_bits())), Some(&AmqpValue::Int(2)));
    assert_eq!(map.get(AmqpValue::Float(1.5f32.to_bits())), Some(&AmqpValue::Int(3)));
    assert_eq!(map.get(AmqpValue::Double(f64::NAN.to_bits())), None);
    let mut nested: AmqpOrderedMap<AmqpValue, AmqpValue> = AmqpOrderedMap::new();
    nested.insert(
        AmqpValue::List(AmqpList(vec![AmqpValue::Float((-0.0f32).to_bits())])),
        AmqpValue::Boolean(true),
    );
    assert_eq!(
        nested.get(AmqpValue::List(AmqpList(vec![AmqpValue::Float(0.0f32.to_bits())]))),
        Some(&AmqpValue::Boolean(true))
    );
    assert_eq!(nested.remove(&AmqpValue::Float(0.0f32.to_bits())), None);
}

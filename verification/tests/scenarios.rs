use unsafe_poke::{
    derive_encode_to_vec, derive_max_size, encode_to_vec, poke_to_vec, shape_max_size, value_fits,
    Poker, Shape, TypeDecl, UnsafePoke, UnsafePokable, Value, VariantShape,
};

fn decl(variants: Vec<Vec<Shape>>) -> TypeDecl {
    TypeDecl {
        variants: variants
            .into_iter()
            .map(|fields| VariantShape { fields })
            .collect(),
    }
}

#[test]
fn u32_scenario() {
    assert_eq!(poke_to_vec(&5u32), vec![0x05, 0x00, 0x00, 0x00]);
    assert_eq!(u32::poke_max_size(), 4);
    assert_eq!(
        encode_to_vec(&Shape::U32, &Value::U32(5)),
        Some(vec![0x05, 0x00, 0x00, 0x00])
    );
    assert_eq!(shape_max_size(&Shape::U32), Some(4));
}

#[test]
fn bool_scenario() {
    assert_eq!(poke_to_vec(&true), vec![0x01]);
    assert_eq!(poke_to_vec(&false), vec![0x00]);
    assert_eq!(encode_to_vec(&Shape::Bool, &Value::Bool(true)), Some(vec![0x01]));
    assert_eq!(encode_to_vec(&Shape::Bool, &Value::Bool(false)), Some(vec![0x00]));
}

#[test]
fn nullable_scenario() {
    assert_eq!(
        poke_to_vec(&Some(5u32)),
        vec![0x01, 0x05, 0x00, 0x00, 0x00]
    );
    assert_eq!(poke_to_vec(&None::<u32>), vec![0x00]);
    assert_eq!(Option::<u32>::poke_max_size(), 5);
    let shape = Shape::Nullable(Box::new(Shape::U32));
    assert_eq!(
        encode_to_vec(&shape, &Value::Just(Box::new(Value::U32(5)))),
        Some(vec![0x01, 0x05, 0x00, 0x00, 0x00])
    );
    assert_eq!(encode_to_vec(&shape, &Value::Nothing), Some(vec![0x00]));
    assert_eq!(shape_max_size(&shape), Some(5));
}

#[test]
fn zero_byte_sequence_scenario() {
    assert_eq!(poke_to_vec(&[0u8; 19]), vec![0u8; 19]);
    assert_eq!(<[u8; 19]>::poke_max_size(), 19);
    let shape = Shape::Array(Box::new(Shape::U8), 19);
    let v = Value::List((0..19).map(|_| Value::U8(0)).collect());
    assert_eq!(encode_to_vec(&shape, &v), Some(vec![0u8; 19]));
    assert_eq!(shape_max_size(&shape), Some(19));
}

#[test]
fn product_scenario() {
    // a record of three integers and an absent nullable integer encodes to
    // thirteen bytes: three four-byte integers, then a single zero
    let d = decl(vec![vec![
        Shape::U32,
        Shape::U32,
        Shape::U32,
        Shape::Nullable(Box::new(Shape::U32)),
    ]]);
    let v = Value::Case(
        0,
        vec![
            Value::U32(2),
            Value::U32(4),
            Value::U32(42),
            Value::Nothing,
        ],
    );
    let bytes = derive_encode_to_vec(&d, &v).unwrap();
    assert_eq!(
        bytes,
        vec![0x02, 0, 0, 0, 0x04, 0, 0, 0, 0x2a, 0, 0, 0, 0x00]
    );
    assert_eq!(bytes.len(), 13);
    // the static bound covers the worst case, a present nullable field
    assert_eq!(derive_max_size(&d), Some(17));
}

#[test]
fn sum_scenario() {
    // variants {no-field, one-word, two-words, no-field, {word, f32}}:
    // the bound is 4 + max(0, 8, 16, 0, 12) = 20
    let d = decl(vec![
        vec![],
        vec![Shape::USize],
        vec![Shape::USize, Shape::USize],
        vec![],
        vec![Shape::USize, Shape::F32],
    ]);
    assert_eq!(derive_max_size(&d), Some(20));
    let v = Value::Case(2, vec![Value::USize(4), Value::USize(5)]);
    let bytes = derive_encode_to_vec(&d, &v).unwrap();
    assert_eq!(
        bytes,
        vec![
            0x02, 0x00, 0x00, 0x00, 0x04, 0x00, 0x00, 0x00, 0x00, 0x00, 0x00, 0x00, 0x05, 0x00,
            0x00, 0x00, 0x00, 0x00, 0x00, 0x00
        ]
    );
    assert_eq!(bytes.len(), 20);
}

#[test]
fn discriminant_prefix() {
    // the first four bytes of every sum-type encoding are the 0-based
    // declaration index of the variant, little-endian
    let d = decl(vec![
        vec![Shape::U8],
        vec![],
        vec![Shape::U64],
        vec![Shape::Bool, Shape::Bool],
    ]);
    let cases = vec![
        Value::Case(0, vec![Value::U8(7)]),
        Value::Case(1, vec![]),
        Value::Case(2, vec![Value::U64(1)]),
        Value::Case(3, vec![Value::Bool(true), Value::Bool(false)]),
    ];
    let mut i = 0u32;
    for v in &cases {
        let bytes = derive_encode_to_vec(&d, v).unwrap();
        assert_eq!(&bytes[0..4], &i.to_le_bytes());
        i += 1;
    }
}

#[test]
fn upper_bound_soundness_samples() {
    // every encoding is no longer than the declared bound
    let d = decl(vec![
        vec![],
        vec![Shape::USize],
        vec![Shape::USize, Shape::USize],
        vec![],
        vec![Shape::USize, Shape::F32],
    ]);
    let bound = derive_max_size(&d).unwrap();
    let cases = vec![
        Value::Case(0, vec![]),
        Value::Case(1, vec![Value::USize(usize::MAX)]),
        Value::Case(2, vec![Value::USize(1), Value::USize(2)]),
        Value::Case(3, vec![]),
        Value::Case(4, vec![Value::USize(0), Value::F32(0)]),
    ];
    for v in &cases {
        assert!(derive_encode_to_vec(&d, v).unwrap().len() <= bound);
    }
}

#[test]
fn composition_nests() {
    // a tuple of a nullable byte and a two-element sequence of pairs
    // composes with no special casing
    let shape = Shape::Tuple(vec![
        Shape::Nullable(Box::new(Shape::U8)),
        Shape::Array(
            Box::new(Shape::Tuple(vec![Shape::U8, Shape::U16])),
            2,
        ),
    ]);
    let v = Value::List(vec![
        Value::Just(Box::new(Value::U8(9))),
        Value::List(vec![
            Value::List(vec![Value::U8(1), Value::U16(0x0203)]),
            Value::List(vec![Value::U8(4), Value::U16(0x0506)]),
        ]),
    ]);
    assert_eq!(shape_max_size(&shape), Some(2 + 6));
    assert_eq!(
        encode_to_vec(&shape, &v),
        Some(vec![0x01, 0x09, 0x01, 0x03, 0x02, 0x04, 0x06, 0x05])
    );
}

#[test]
fn empty_sequence_needs_nothing() {
    // a zero-length sequence contributes no bytes, whatever its element
    let shape = Shape::Array(Box::new(Shape::U64), 0);
    assert_eq!(shape_max_size(&shape), Some(0));
    assert_eq!(encode_to_vec(&shape, &Value::List(vec![])), Some(vec![]));
}

#[test]
fn single_field_product_is_transparent() {
    // a product type with one field encodes exactly as the field does
    let d = decl(vec![vec![Shape::I16]]);
    assert_eq!(
        derive_encode_to_vec(&d, &Value::Case(0, vec![Value::I16(-2)])).unwrap(),
        poke_to_vec(&-2i16)
    );
    assert_eq!(derive_max_size(&d), Some(2));
}

#[test]
fn mismatched_values_are_rejected() {
    let d = decl(vec![vec![Shape::U32]]);
    // wrong field kind
    assert_eq!(
        derive_encode_to_vec(&d, &Value::Case(0, vec![Value::U64(5)])),
        None
    );
    // variant index out of range
    assert_eq!(derive_encode_to_vec(&d, &Value::Case(1, vec![])), None);
    // not a declared-type value at all
    assert_eq!(derive_encode_to_vec(&d, &Value::U32(5)), None);
    // wrong field count
    assert_eq!(derive_encode_to_vec(&d, &Value::Case(0, vec![])), None);
}

#[test]
fn unrepresentable_bound_is_reported() {
    // a bound past the machine word is reported, not wrapped
    let huge = Shape::Array(Box::new(Shape::U64), usize::MAX);
    assert_eq!(shape_max_size(&huge), None);
    let nested = Shape::Nullable(Box::new(Shape::Array(Box::new(Shape::U64), usize::MAX)));
    assert_eq!(shape_max_size(&nested), None);
}

#[test]
fn poker_tracks_position() {
    let buf = vec![0u8; 16];
    let p = Poker::new(buf);
    assert_eq!(p.position(), 0);
    let p = p.poke_pod(0xaabbu16);
    assert_eq!(p.position(), 2);
    let p = p.poke_bytes(&[1, 2, 3]);
    assert_eq!(p.position(), 5);
    assert_eq!(p.into_vec(), vec![0xbb, 0xaa, 1, 2, 3]);
}

#[test]
fn signed_negative_bytes_exact() {
    assert_eq!(poke_to_vec(&-1i8), vec![0xff]);
    assert_eq!(poke_to_vec(&-2i16), vec![0xfe, 0xff]);
    assert_eq!(poke_to_vec(&-1i32), vec![0xff, 0xff, 0xff, 0xff]);
    assert_eq!(poke_to_vec(&i64::MIN), vec![0, 0, 0, 0, 0, 0, 0, 0x80]);
}

#[test]
fn zero_size_values() {
    assert_eq!(poke_to_vec(&()), Vec::<u8>::new());
    assert_eq!(encode_to_vec(&Shape::Unit, &Value::Unit), Some(vec![]));
    assert_eq!(encode_to_vec(&Shape::Marker, &Value::Marker), Some(vec![]));
    assert_eq!(shape_max_size(&Shape::Tuple(vec![])), Some(0));
    assert_eq!(
        encode_to_vec(&Shape::Tuple(vec![]), &Value::List(vec![])),
        Some(vec![])
    );
}

#[test]
fn nested_declaration_inside_shape() {
    // a sum type used as a field of a tuple: arbitrary nesting composes
    let inner = decl(vec![vec![], vec![Shape::U8]]);
    let shape = Shape::Tuple(vec![Shape::U8, Shape::Decl(Box::new(inner))]);
    let v = Value::List(vec![
        Value::U8(0xfe),
        Value::Case(1, vec![Value::U8(0x07)]),
    ]);
    assert_eq!(shape_max_size(&shape), Some(1 + 4 + 1));
    assert_eq!(
        encode_to_vec(&shape, &v),
        Some(vec![0xfe, 0x01, 0x00, 0x00, 0x00, 0x07])
    );
}

#[test]
fn static_composition_nests() {
    // a fixed sequence of tuples of nullable wrappers composes with no
    // special casing, and matches the reference serializer byte for byte
    let v = [(Some(1u8), 0x0203u16), (None::<u8>, 0x0405u16)];
    assert_eq!(poke_to_vec(&v), bincode::serialize(&v).unwrap());
    assert_eq!(
        poke_to_vec(&v),
        vec![0x01, 0x01, 0x03, 0x02, 0x00, 0x05, 0x04]
    );
    assert_eq!(<[(Option<u8>, u16); 2]>::poke_max_size(), 2 * (2 + 2));
}

#[test]
fn tuple_is_concatenation() {
    // encoding (a, b) and then (a, b, c) equals the concatenation of the
    // three independent encodings, in order
    let a = 0x11223344u32;
    let b = true;
    let c = -7i16;
    let mut pair = poke_to_vec(&a);
    pair.extend(poke_to_vec(&b));
    assert_eq!(poke_to_vec(&(a, b)), pair);
    let mut triple = pair.clone();
    triple.extend(poke_to_vec(&c));
    assert_eq!(poke_to_vec(&(a, b, c)), triple);
}

#[test]
fn derived_bound_overflow_is_reported() {
    // a declaration whose worst case cannot fit the machine word
    let d = decl(vec![
        vec![],
        vec![Shape::Array(Box::new(Shape::U64), usize::MAX)],
    ]);
    assert_eq!(derive_max_size(&d), None);
}

#[test]
fn value_fits_checks_layout() {
    let shape = Shape::Tuple(vec![Shape::U8, Shape::Nullable(Box::new(Shape::Bool))]);
    let good = Value::List(vec![Value::U8(1), Value::Just(Box::new(Value::Bool(true)))]);
    let bad_kind = Value::List(vec![Value::U16(1), Value::Nothing]);
    let bad_arity = Value::List(vec![Value::U8(1)]);
    assert!(value_fits(&shape, &good));
    assert!(!value_fits(&shape, &bad_kind));
    assert!(!value_fits(&shape, &bad_arity));
    assert!(!value_fits(&shape, &Value::U8(1)));
}

use unsafe_poke::{
    derive_encode_to_vec, poke_to_vec, F32Bits, F64Bits, Shape, TypeDecl, UnsafePoke, Value,
    VariantShape,
};

fn decl(variants: Vec<Vec<Shape>>) -> TypeDecl {
    TypeDecl {
        variants: variants
            .into_iter()
            .map(|fields| VariantShape { fields })
            .collect(),
    }
}

/// The encoding must be byte-identical to the reference fixed-width
/// little-endian serializer's output for the same value.
fn the_same<V: UnsafePoke>(element: V, reference: Vec<u8>) {
    assert_eq!(reference, poke_to_vec(&element));
}

fn the_same_decl(d: &TypeDecl, v: &Value, reference: Vec<u8>) {
    assert_eq!(reference, derive_encode_to_vec(d, v).unwrap());
}

#[test]
fn test_test_numbers() {
    // unsigned positive
    the_same(5u8, bincode::serialize(&5u8).unwrap());
    the_same(5u16, bincode::serialize(&5u16).unwrap());
    the_same(5u32, bincode::serialize(&5u32).unwrap());
    the_same(5u64, bincode::serialize(&5u64).unwrap());
    the_same(5usize, bincode::serialize(&5usize).unwrap());
    // signed positive
    the_same(5i8, bincode::serialize(&5i8).unwrap());
    the_same(5i16, bincode::serialize(&5i16).unwrap());
    the_same(5i32, bincode::serialize(&5i32).unwrap());
    the_same(5i64, bincode::serialize(&5i64).unwrap());
    the_same(5isize, bincode::serialize(&5isize).unwrap());
    // signed negative
    the_same(-5i8, bincode::serialize(&-5i8).unwrap());
    the_same(-5i16, bincode::serialize(&-5i16).unwrap());
    the_same(-5i32, bincode::serialize(&-5i32).unwrap());
    the_same(-5i64, bincode::serialize(&-5i64).unwrap());
    the_same(-5isize, bincode::serialize(&-5isize).unwrap());
    // floating: the wire form of a float is its bit pattern, verbatim
    the_same(
        F32Bits((-100f32).to_bits()),
        bincode::serialize(&-100f32).unwrap(),
    );
    the_same(F32Bits((0f32).to_bits()), bincode::serialize(&0f32).unwrap());
    the_same(F32Bits((5f32).to_bits()), bincode::serialize(&5f32).unwrap());
    the_same(
        F64Bits((-100f64).to_bits()),
        bincode::serialize(&-100f64).unwrap(),
    );
    the_same(F64Bits((5f64).to_bits()), bincode::serialize(&5f64).unwrap());
}

#[test]
fn test_test_bool() {
    the_same(true, bincode::serialize(&true).unwrap());
    the_same(false, bincode::serialize(&false).unwrap());
}

#[test]
fn test_test_option() {
    the_same(Some(5usize), bincode::serialize(&Some(5usize)).unwrap());
    the_same(None::<usize>, bincode::serialize(&None::<usize>).unwrap());
}

#[test]
fn test_test_fixed_size_array() {
    the_same([24u32; 32], bincode::serialize(&[24u32; 32]).unwrap());
    the_same(
        [1u64, 2, 3, 4, 5, 6, 7, 8],
        bincode::serialize(&[1u64, 2, 3, 4, 5, 6, 7, 8]).unwrap(),
    );
    the_same([0u8; 19], bincode::serialize(&[0u8; 19]).unwrap());
}

#[test]
fn test_test_tuple() {
    the_same((1isize,), bincode::serialize(&(1isize,)).unwrap());
    the_same(
        (1isize, 2isize, 3isize),
        bincode::serialize(&(1isize, 2isize, 3isize)).unwrap(),
    );
    the_same((1isize, ()), bincode::serialize(&(1isize, ())).unwrap());
}

#[test]
fn test_test_basic_struct() {
    // struct Bar { a: u32, b: u32, c: u32, d: Option<u32> }: a record
    // encodes exactly as the tuple of its fields does
    let bar = decl(vec![vec![
        Shape::U32,
        Shape::U32,
        Shape::U32,
        Shape::Nullable(Box::new(Shape::U32)),
    ]]);
    let v = Value::Case(
        0,
        vec![
            Value::U32(2),
            Value::U32(4),
            Value::U32(42),
            Value::Nothing,
        ],
    );
    the_same_decl(
        &bar,
        &v,
        bincode::serialize(&(2u32, 4u32, 42u32, None::<u32>)).unwrap(),
    );
}

#[test]
fn test_test_enum() {
    // enum TestEnum { NoArg, OneArg(usize), Args(usize, usize),
    //                 AnotherNoArg, StructLike { x: usize, y: f32 } };
    // the reference serializer writes a four-byte variant index and then
    // the fields, which is exactly this wire format
    let test_enum = decl(vec![
        vec![],
        vec![Shape::USize],
        vec![Shape::USize, Shape::USize],
        vec![],
        vec![Shape::USize, Shape::F32],
    ]);
    the_same_decl(
        &test_enum,
        &Value::Case(0, vec![]),
        bincode::serialize(&0u32).unwrap(),
    );
    the_same_decl(
        &test_enum,
        &Value::Case(1, vec![Value::USize(4)]),
        bincode::serialize(&(1u32, 4usize)).unwrap(),
    );
    the_same_decl(
        &test_enum,
        &Value::Case(2, vec![Value::USize(4), Value::USize(5)]),
        bincode::serialize(&(2u32, 4usize, 5usize)).unwrap(),
    );
    the_same_decl(
        &test_enum,
        &Value::Case(3, vec![]),
        bincode::serialize(&3u32).unwrap(),
    );
    the_same_decl(
        &test_enum,
        &Value::Case(
            4,
            vec![Value::USize(4), Value::F32(3.14159f32.to_bits())],
        ),
        bincode::serialize(&(4u32, 4usize, 3.14159f32)).unwrap(),
    );
}

#[test]
fn test_test_enum_cstyle() {
    // ten field-free variants: each encodes as its bare discriminant
    let border_style = decl(vec![
        vec![],
        vec![],
        vec![],
        vec![],
        vec![],
        vec![],
        vec![],
        vec![],
        vec![],
        vec![],
    ]);
    for i in 0..10usize {
        the_same_decl(
            &border_style,
            &Value::Case(i, vec![]),
            bincode::serialize(&(i as u32)).unwrap(),
        );
    }
}

#[test]
fn test_test_phantom_data() {
    // struct Foo { x: u32, y: u32, _marker: PhantomData<Bar> }: the marker
    // contributes nothing to the wire
    let foo = decl(vec![vec![Shape::U32, Shape::U32, Shape::Marker]]);
    let v = Value::Case(0, vec![Value::U32(19), Value::U32(42), Value::Marker]);
    the_same_decl(&foo, &v, bincode::serialize(&(19u32, 42u32)).unwrap());
}

#[test]
fn it_works() {
    // derive the encoder for
    // struct Bar { a: u32, b: u32, c: u32, d: Option<u32>, }
    let bar = decl(vec![vec![
        Shape::U32,
        Shape::U32,
        Shape::U32,
        Shape::Nullable(Box::new(Shape::U32)),
    ]]);
    let derived = unsafe_poke::derive_max_size(&bar);
    println!("{:?}", derived);
    let v = Value::Case(
        0,
        vec![Value::U32(1), Value::U32(2), Value::U32(3), Value::Just(Box::new(Value::U32(4)))],
    );
    println!("{:?}", derive_encode_to_vec(&bar, &v));
}

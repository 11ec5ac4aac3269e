use std::marker::PhantomData;
use std::mem::size_of;
use unsafe_poke::{derive_max_size, F32Bits, F64Bits, Shape, TypeDecl, UnsafePoke, VariantShape};

fn decl(variants: Vec<Vec<Shape>>) -> TypeDecl {
    TypeDecl {
        variants: variants
            .into_iter()
            .map(|fields| VariantShape { fields })
            .collect(),
    }
}

#[test]
fn max_size_test_numbers() {
    assert_eq!(u8::poke_max_size(), size_of::<u8>());
    assert_eq!(u16::poke_max_size(), size_of::<u16>());
    assert_eq!(u32::poke_max_size(), size_of::<u32>());
    assert_eq!(u64::poke_max_size(), size_of::<u64>());
    assert_eq!(usize::poke_max_size(), size_of::<usize>());
    assert_eq!(i8::poke_max_size(), size_of::<i8>());
    assert_eq!(i16::poke_max_size(), size_of::<i16>());
    assert_eq!(i32::poke_max_size(), size_of::<i32>());
    assert_eq!(i64::poke_max_size(), size_of::<i64>());
    assert_eq!(isize::poke_max_size(), size_of::<isize>());
    // floating point travels as its bit pattern, at the same width
    assert_eq!(F32Bits::poke_max_size(), size_of::<f32>());
    assert_eq!(F64Bits::poke_max_size(), size_of::<f64>());
}

#[test]
fn max_size_test_bool() {
    assert_eq!(bool::poke_max_size(), size_of::<u8>());
}

#[test]
fn max_size_test_option() {
    assert_eq!(Option::<usize>::poke_max_size(), 1 + size_of::<usize>());
}

#[test]
fn max_size_test_fixed_size_array() {
    assert_eq!(<[u32; 32]>::poke_max_size(), 32 * size_of::<u32>());
    assert_eq!(<[u64; 8]>::poke_max_size(), 8 * size_of::<u64>());
    assert_eq!(<[u8; 19]>::poke_max_size(), 19 * size_of::<u8>());
}

#[test]
fn max_size_test_tuple() {
    assert_eq!(<(isize,)>::poke_max_size(), size_of::<isize>());
    assert_eq!(
        <(isize, isize, isize)>::poke_max_size(),
        3 * size_of::<isize>()
    );
    assert_eq!(<(isize, ())>::poke_max_size(), size_of::<isize>());
}

#[test]
fn max_size_test_basic_struct() {
    // struct Bar { a: u32, b: u32, c: u32, d: Option<u32> }
    let bar = decl(vec![vec![
        Shape::U32,
        Shape::U32,
        Shape::U32,
        Shape::Nullable(Box::new(Shape::U32)),
    ]]);
    assert_eq!(derive_max_size(&bar), Some(4 * size_of::<u32>() + 1));
}

#[test]
fn max_size_test_enum() {
    // enum TestEnum { NoArg, OneArg(usize), Args(usize, usize),
    //                 AnotherNoArg, StructLike { x: usize, y: f32 } }
    let test_enum = decl(vec![
        vec![],
        vec![Shape::USize],
        vec![Shape::USize, Shape::USize],
        vec![],
        vec![Shape::USize, Shape::F32],
    ]);
    assert_eq!(
        derive_max_size(&test_enum),
        Some(size_of::<u32>() + 2 * size_of::<usize>())
    );
}

#[test]
fn max_size_test_enum_cstyle() {
    // ten variants, none carrying a field
    let border_style = decl(vec![
        vec![],
        vec![],
        vec![],
        vec![],
        vec![],
        vec![],
        vec![],
        vec![],
        vec![],
        vec![],
    ]);
    assert_eq!(derive_max_size(&border_style), Some(size_of::<u32>()));
}

#[test]
fn max_size_test_phantom_data() {
    // struct Foo { x: u32, y: u32, _marker: PhantomData<Bar> }
    let foo = decl(vec![vec![Shape::U32, Shape::U32, Shape::Marker]]);
    assert_eq!(derive_max_size(&foo), Some(2 * size_of::<u32>()));
    // the static marker encoding carries no bytes, and its parameter owes
    // no capability of its own
    assert_eq!(PhantomData::<String>::poke_max_size(), 0);
}

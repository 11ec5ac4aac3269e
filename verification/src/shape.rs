//! The derivation algorithm: given the declared layout of a product or sum
//! type, synthesize its encode procedure and its worst-case size, by the
//! same composition rules the built-in encodings follow.
use vstd::prelude::*;
use vstd::pervasive::unreached;
use crate::pod::{F32Bits, F64Bits, UnsafePod};
use crate::sink::UnsafePokable;
use crate::wire::le_bytes;

verus! {

broadcast use vstd::seq::axiom_seq_index_decreases, vstd::std_specs::vec::axiom_vec_decreases_to_view, vstd::std_specs::vec::axiom_vec_index_decreases;

/// The layout of an encodable type: a primitive, one of the built-in
/// compositions, or a nested declared type.
pub enum Shape {
    Bool,
    U8,
    U16,
    U32,
    U64,
    /// Platform-word unsigned integer, normalized to eight wire bytes.
    USize,
    I8,
    I16,
    I32,
    I64,
    /// Platform-word signed integer, normalized to eight wire bytes.
    ISize,
    /// IEEE single precision, written verbatim: four bytes of bit pattern.
    F32,
    /// IEEE double precision, written verbatim: eight bytes of bit pattern.
    F64,
    /// The unit value: no bytes.
    Unit,
    /// A zero-size marker: no bytes, no capability owed by anything.
    Marker,
    /// A nullable wrapper around an inner layout.
    Nullable(Box<Shape>),
    /// A fixed-length sequence of one element layout.
    Array(Box<Shape>, usize),
    /// A fixed-arity tuple of component layouts.
    Tuple(Vec<Shape>),
    /// A nested declared type.
    Decl(Box<TypeDecl>),
}

/// One variant of a declared type: its field layouts in declaration order.
/// Whether the fields were named or positional carries no bytes.
pub struct VariantShape {
    pub fields: Vec<Shape>,
}

/// The declared layout of a user type. Exactly one variant is a product
/// type (a plain record, no discriminant); any other count is a sum type,
/// whose encodings start with a four-byte discriminant.
pub struct TypeDecl {
    pub variants: Vec<VariantShape>,
}

/// A runtime value of some declared layout.
pub enum Value {
    Bool(bool),
    U8(u8),
    U16(u16),
    U32(u32),
    U64(u64),
    USize(usize),
    I8(i8),
    I16(i16),
    I32(i32),
    I64(i64),
    ISize(isize),
    /// The bit pattern of an IEEE single-precision number.
    F32(u32),
    /// The bit pattern of an IEEE double-precision number.
    F64(u64),
    Unit,
    Marker,
    /// An absent nullable value.
    Nothing,
    /// A present nullable value.
    Just(Box<Value>),
    /// The elements of a sequence or the components of a tuple.
    List(Vec<Value>),
    /// A value of a declared type: the variant index and its field values.
    Case(usize, Vec<Value>),
}

/// Whether `v` is a value of layout `s`.
pub open spec fn fits(s: Shape, v: Value) -> bool
    decreases s, 0int,
{
    match s {
        Shape::Bool => v is Bool,
        Shape::U8 => v is U8,
        Shape::U16 => v is U16,
        Shape::U32 => v is U32,
        Shape::U64 => v is U64,
        Shape::USize => v is USize,
        Shape::I8 => v is I8,
        Shape::I16 => v is I16,
        Shape::I32 => v is I32,
        Shape::I64 => v is I64,
        Shape::ISize => v is ISize,
        Shape::F32 => v is F32,
        Shape::F64 => v is F64,
        Shape::Unit => v is Unit,
        Shape::Marker => v is Marker,
        Shape::Nullable(t) => match v {
            Value::Nothing => true,
            Value::Just(b) => fits(*t, *b),
            _ => false,
        },
        Shape::Array(e, n) => match v {
            Value::List(vs) => vs@.len() == n && fits_array(*e, vs@),
            _ => false,
        },
        Shape::Tuple(ss) => match v {
            Value::List(vs) => fits_list(ss@, vs@),
            _ => false,
        },
        Shape::Decl(d) => fits_decl(*d, v),
    }
}

/// Whether every element of `vs` is a value of the element layout `e`.
pub open spec fn fits_array(e: Shape, vs: Seq<Value>) -> bool
    decreases e, 1int,
{
    forall|i: int| 0 <= i < vs.len() ==> fits(e, #[trigger] vs[i])
}

/// Whether `vs` matches the field layouts `ss`, position by position.
pub open spec fn fits_list(ss: Seq<Shape>, vs: Seq<Value>) -> bool
    decreases ss, 0int,
{
    vs.len() == ss.len() && forall|i: int| 0 <= i < ss.len() ==> fits(#[trigger] ss[i], vs[i])
}

/// Whether `v` is a value of the declared type `d`: a variant index in
/// range, with a declaration small enough for a four-byte discriminant,
/// and field values matching that variant's layouts.
pub open spec fn fits_decl(d: TypeDecl, v: Value) -> bool
    decreases d, 1int,
{
    match v {
        Value::Case(i, fs) => d.variants@.len() <= 0x1_0000_0000 && i < d.variants@.len()
            && fits_list(d.variants@[i as int].fields@, fs@),
        _ => false,
    }
}

/// The wire bytes of value `v` under layout `s`.
pub open spec fn wire_of(s: Shape, v: Value) -> Seq<u8>
    decreases s, 0int,
{
    match s {
        Shape::Bool => (v->Bool_0).pod_wire(),
        Shape::U8 => (v->U8_0).pod_wire(),
        Shape::U16 => (v->U16_0).pod_wire(),
        Shape::U32 => (v->U32_0).pod_wire(),
        Shape::U64 => (v->U64_0).pod_wire(),
        Shape::USize => (v->USize_0).pod_wire(),
        Shape::I8 => (v->I8_0).pod_wire(),
        Shape::I16 => (v->I16_0).pod_wire(),
        Shape::I32 => (v->I32_0).pod_wire(),
        Shape::I64 => (v->I64_0).pod_wire(),
        Shape::ISize => (v->ISize_0).pod_wire(),
        Shape::F32 => F32Bits(v->F32_0).pod_wire(),
        Shape::F64 => F64Bits(v->F64_0).pod_wire(),
        Shape::Unit => Seq::empty(),
        Shape::Marker => Seq::empty(),
        Shape::Nullable(t) => match v {
            Value::Just(b) => seq![1u8] + wire_of(*t, *b),
            _ => seq![0u8],
        },
        Shape::Array(e, n) => match v {
            Value::List(vs) => wire_array(*e, vs@),
            _ => Seq::empty(),
        },
        Shape::Tuple(ss) => match v {
            Value::List(vs) => wire_list(ss@, vs@),
            _ => Seq::empty(),
        },
        Shape::Decl(d) => wire_decl(*d, v),
    }
}

/// The concatenated wire bytes of a uniform sequence of values.
pub open spec fn wire_array(e: Shape, vs: Seq<Value>) -> Seq<u8>
    decreases e, 1int, vs.len(),
{
    if vs.len() == 0 {
        Seq::empty()
    } else {
        wire_of(e, vs[0]) + wire_array(e, vs.subrange(1, vs.len() as int))
    }
}

/// The concatenated wire bytes of field values against field layouts.
pub open spec fn wire_list(ss: Seq<Shape>, vs: Seq<Value>) -> Seq<u8>
    decreases ss, 0int,
{
    if ss.len() == 0 {
        Seq::empty()
    } else {
        wire_of(ss[0], vs[0]) + wire_list(ss.subrange(1, ss.len() as int), vs.subrange(1, vs.len() as int))
    }
}

/// The wire bytes of a declared-type value: for a sum type, the four-byte
/// little-endian discriminant then the variant's fields; for a product
/// type, the fields alone.
pub open spec fn wire_decl(d: TypeDecl, v: Value) -> Seq<u8>
    decreases d, 1int,
{
    match v {
        Value::Case(i, fs) => if i < d.variants@.len() {
            (if d.variants@.len() == 1 {
                Seq::empty()
            } else {
                le_bytes(i as nat, 4)
            }) + wire_list(d.variants@[i as int].fields@, fs@)
        } else {
            Seq::empty()
        },
        _ => Seq::empty(),
    }
}

/// The static size bound of layout `s`: the most bytes any value of it
/// can occupy.
pub open spec fn shape_max(s: Shape) -> nat
    decreases s, 0int,
{
    match s {
        Shape::Bool => 1,
        Shape::U8 => 1,
        Shape::U16 => 2,
        Shape::U32 => 4,
        Shape::U64 => 8,
        Shape::USize => 8,
        Shape::I8 => 1,
        Shape::I16 => 2,
        Shape::I32 => 4,
        Shape::I64 => 8,
        Shape::ISize => 8,
        Shape::F32 => 4,
        Shape::F64 => 8,
        Shape::Unit => 0,
        Shape::Marker => 0,
        Shape::Nullable(t) => 1 + shape_max(*t),
        Shape::Array(e, n) => (n * shape_max(*e)) as nat,
        Shape::Tuple(ss) => size_list(ss@),
        Shape::Decl(d) => decl_max(*d),
    }
}

/// The sum of the size bounds of a list of field layouts.
pub open spec fn size_list(ss: Seq<Shape>) -> nat
    decreases ss, 0int,
{
    if ss.len() == 0 {
        0
    } else {
        shape_max(ss[0]) + size_list(ss.subrange(1, ss.len() as int))
    }
}

/// The largest per-variant field-size sum across a list of variants.
pub open spec fn variants_max(vars: Seq<VariantShape>) -> nat
    decreases vars, 1int,
{
    if vars.len() == 0 {
        0
    } else {
        let head = size_list(vars[0].fields@);
        let rest = variants_max(vars.subrange(1, vars.len() as int));
        if head >= rest {
            head
        } else {
            rest
        }
    }
}

/// The static size bound of a declared type: a product type's bound is the
/// sum of its field bounds; a sum type's is four discriminant bytes plus
/// the largest variant's sum, since only one variant is ever materialized.
pub open spec fn decl_max(d: TypeDecl) -> nat
    decreases d, 2int,
{
    if d.variants@.len() == 1 {
        size_list(d.variants@[0].fields@)
    } else {
        4 + variants_max(d.variants@)
    }
}


/// Concatenation distributes over `wire_list`, splitting layouts and
/// values at the same point.
pub proof fn lemma_wire_list_concat(s1: Seq<Shape>, v1: Seq<Value>, s2: Seq<Shape>, v2: Seq<Value>)
    requires
        s1.len() == v1.len(),
    ensures
        wire_list(s1 + s2, v1 + v2) == wire_list(s1, v1) + wire_list(s2, v2),
    decreases s1.len(),
{
    if s1.len() == 0 {
        assert(s1 + s2 =~= s2);
        assert(v1 + v2 =~= v2);
        assert(wire_list(s1, v1) + wire_list(s2, v2) =~= wire_list(s2, v2));
    } else {
        let st = s1.subrange(1, s1.len() as int);
        let vt = v1.subrange(1, v1.len() as int);
        assert((s1 + s2).subrange(1, (s1 + s2).len() as int) =~= st + s2);
        assert((v1 + v2).subrange(1, (v1 + v2).len() as int) =~= vt + v2);
        assert((s1 + s2)[0] == s1[0]);
        assert((v1 + v2)[0] == v1[0]);
        lemma_wire_list_concat(st, vt, s2, v2);
        assert(wire_of(s1[0], v1[0]) + (wire_list(st, vt) + wire_list(s2, v2)) =~= (wire_of(
            s1[0],
            v1[0],
        ) + wire_list(st, vt)) + wire_list(s2, v2));
    }
}

/// A one-field list encodes to just that field's encoding.
pub proof fn lemma_wire_list_single(s: Shape, v: Value)
    ensures
        wire_list(seq![s], seq![v]) == wire_of(s, v),
{
    assert(seq![s].subrange(1, 1) =~= Seq::<Shape>::empty());
    assert(seq![v].subrange(1, 1) =~= Seq::<Value>::empty());
    assert(wire_list(Seq::<Shape>::empty(), Seq::<Value>::empty()) =~= Seq::<u8>::empty());
    assert(wire_of(s, v) + Seq::<u8>::empty() =~= wire_of(s, v));
}

/// Concatenation distributes over `wire_array`.
pub proof fn lemma_wire_array_concat(e: Shape, v1: Seq<Value>, v2: Seq<Value>)
    ensures
        wire_array(e, v1 + v2) == wire_array(e, v1) + wire_array(e, v2),
    decreases v1.len(),
{
    if v1.len() == 0 {
        assert(v1 + v2 =~= v2);
        assert(wire_array(e, v1) + wire_array(e, v2) =~= wire_array(e, v2));
    } else {
        let vt = v1.subrange(1, v1.len() as int);
        assert((v1 + v2).subrange(1, (v1 + v2).len() as int) =~= vt + v2);
        assert((v1 + v2)[0] == v1[0]);
        lemma_wire_array_concat(e, vt, v2);
        assert(wire_of(e, v1[0]) + (wire_array(e, vt) + wire_array(e, v2)) =~= (wire_of(e, v1[0])
            + wire_array(e, vt)) + wire_array(e, v2));
    }
}

/// A one-element sequence encodes to just that element's encoding.
pub proof fn lemma_wire_array_single(e: Shape, v: Value)
    ensures
        wire_array(e, seq![v]) == wire_of(e, v),
{
    assert(seq![v].subrange(1, 1) =~= Seq::<Value>::empty());
    assert(wire_array(e, Seq::<Value>::empty()) =~= Seq::<u8>::empty());
    assert(wire_of(e, v) + Seq::<u8>::empty() =~= wire_of(e, v));
}

/// Concatenation distributes over `size_list`.
pub proof fn lemma_size_list_concat(s1: Seq<Shape>, s2: Seq<Shape>)
    ensures
        size_list(s1 + s2) == size_list(s1) + size_list(s2),
    decreases s1.len(),
{
    if s1.len() == 0 {
        assert(s1 + s2 =~= s2);
    } else {
        let st = s1.subrange(1, s1.len() as int);
        assert((s1 + s2).subrange(1, (s1 + s2).len() as int) =~= st + s2);
        assert((s1 + s2)[0] == s1[0]);
        lemma_size_list_concat(st, s2);
    }
}

/// A one-field list's bound is just that field's bound.
pub proof fn lemma_size_list_single(s: Shape)
    ensures
        size_list(seq![s]) == shape_max(s),
{
    assert(seq![s].subrange(1, 1) =~= Seq::<Shape>::empty());
    assert(size_list(Seq::<Shape>::empty()) == 0);
}

/// No variant's field-size sum exceeds the maximum over all variants.
pub proof fn lemma_variants_max_ge(vars: Seq<VariantShape>, i: int)
    requires
        0 <= i < vars.len(),
    ensures
        size_list(vars[i].fields@) <= variants_max(vars),
    decreases vars.len(),
{
    if i > 0 {
        let vt = vars.subrange(1, vars.len() as int);
        lemma_variants_max_ge(vt, i - 1);
        assert(vt[i - 1] == vars[i]);
    }
}

/// Upper-bound soundness: no value of a layout encodes past the layout's
/// static size bound.
pub proof fn lemma_wire_within(s: Shape, v: Value)
    requires
        fits(s, v),
    ensures
        wire_of(s, v).len() <= shape_max(s),
    decreases s, 0int,
{
    match s {
        Shape::Bool => (v->Bool_0).pod_wire_len(),
        Shape::U8 => (v->U8_0).pod_wire_len(),
        Shape::U16 => (v->U16_0).pod_wire_len(),
        Shape::U32 => (v->U32_0).pod_wire_len(),
        Shape::U64 => (v->U64_0).pod_wire_len(),
        Shape::USize => (v->USize_0).pod_wire_len(),
        Shape::I8 => (v->I8_0).pod_wire_len(),
        Shape::I16 => (v->I16_0).pod_wire_len(),
        Shape::I32 => (v->I32_0).pod_wire_len(),
        Shape::I64 => (v->I64_0).pod_wire_len(),
        Shape::ISize => (v->ISize_0).pod_wire_len(),
        Shape::F32 => F32Bits(v->F32_0).pod_wire_len(),
        Shape::F64 => F64Bits(v->F64_0).pod_wire_len(),
        Shape::Unit => {},
        Shape::Marker => {},
        Shape::Nullable(t) => match v {
            Value::Just(b) => {
                lemma_wire_within(*t, *b);
            },
            _ => {},
        },
        Shape::Array(e, n) => match v {
            Value::List(vs) => {
                lemma_wire_array_within(*e, vs@);
            },
            _ => {},
        },
        Shape::Tuple(ss) => match v {
            Value::List(vs) => {
                lemma_wire_list_within(ss@, vs@);
            },
            _ => {},
        },
        Shape::Decl(d) => {
            lemma_wire_decl_within(*d, v);
        },
    }
}

/// Upper-bound soundness for a uniform sequence of values.
pub proof fn lemma_wire_array_within(e: Shape, vs: Seq<Value>)
    requires
        fits_array(e, vs),
    ensures
        wire_array(e, vs).len() <= vs.len() * shape_max(e),
    decreases e, 1int, vs.len(),
{
    if vs.len() > 0 {
        let vt = vs.subrange(1, vs.len() as int);
        lemma_wire_within(e, vs[0]);
        assert(fits_array(e, vt));
        lemma_wire_array_within(e, vt);
        assert(shape_max(e) + (vs.len() - 1) * shape_max(e) == vs.len() * shape_max(e))
            by (nonlinear_arith);
    }
}

/// Upper-bound soundness for field values against field layouts.
pub proof fn lemma_wire_list_within(ss: Seq<Shape>, vs: Seq<Value>)
    requires
        fits_list(ss, vs),
    ensures
        wire_list(ss, vs).len() <= size_list(ss),
    decreases ss, 0int,
{
    if ss.len() > 0 {
        let st = ss.subrange(1, ss.len() as int);
        let vt = vs.subrange(1, vs.len() as int);
        lemma_wire_within(ss[0], vs[0]);
        assert(fits_list(st, vt));
        lemma_wire_list_within(st, vt);
    }
}

/// Upper-bound soundness for a declared type.
pub proof fn lemma_wire_decl_within(d: TypeDecl, v: Value)
    requires
        fits_decl(d, v),
    ensures
        wire_decl(d, v).len() <= decl_max(d),
    decreases d, 1int,
{
    let i = v->Case_0;
    let fs = v->Case_1;
    lemma_wire_list_within(d.variants@[i as int].fields@, fs@);
    if d.variants@.len() == 1 {
        assert(i == 0);
    } else {
        crate::wire::lemma_le_bytes_len(i as nat, 4);
        lemma_variants_max_ge(d.variants@, i as int);
    }
}

/// Discriminant correctness: the first four bytes of any sum-type
/// encoding, read as a little-endian unsigned integer, are exactly the
/// 0-based declaration index of the variant that produced it.
pub proof fn lemma_discriminant(d: TypeDecl, v: Value)
    requires
        fits_decl(d, v),
        d.variants@.len() >= 2,
    ensures
        wire_decl(d, v).subrange(0, 4) == le_bytes(v->Case_0 as nat, 4),
        crate::wire::le_value(wire_decl(d, v).subrange(0, 4)) == v->Case_0,
{
    let i = v->Case_0;
    crate::wire::lemma_le_bytes_len(i as nat, 4);
    assert(wire_decl(d, v).subrange(0, 4) =~= le_bytes(i as nat, 4));
    assert(crate::wire::pow256(4) == 0x1_0000_0000) by {
        reveal_with_fuel(crate::wire::pow256, 5);
    }
    crate::wire::lemma_le_bytes_value(i as nat, 4);
}

/// Composition associativity: a pair encodes to the concatenation of its
/// two components' independent encodings, and the matching triple encodes
/// to the concatenation of all three in order, so tupling never inserts
/// or reorders bytes.
pub proof fn lemma_composition_associative(
    pair_s: Shape,
    triple_s: Shape,
    pair_v: Value,
    triple_v: Value,
    sa: Shape,
    sb: Shape,
    sc: Shape,
    a: Value,
    b: Value,
    c: Value,
)
    requires
        pair_s is Tuple && (pair_s->Tuple_0)@ =~= seq![sa, sb],
        triple_s is Tuple && (triple_s->Tuple_0)@ =~= seq![sa, sb, sc],
        pair_v is List && (pair_v->List_0)@ =~= seq![a, b],
        triple_v is List && (triple_v->List_0)@ =~= seq![a, b, c],
    ensures
        wire_of(pair_s, pair_v) == wire_of(sa, a) + wire_of(sb, b),
        wire_of(triple_s, triple_v) == (wire_of(sa, a) + wire_of(sb, b)) + wire_of(sc, c),
{
    assert(seq![sa, sb] =~= seq![sa] + seq![sb]);
    assert(seq![a, b] =~= seq![a] + seq![b]);
    lemma_wire_list_concat(seq![sa], seq![a], seq![sb], seq![b]);
    lemma_wire_list_single(sa, a);
    lemma_wire_list_single(sb, b);
    assert(seq![sa, sb, sc] =~= seq![sa, sb] + seq![sc]);
    assert(seq![a, b, c] =~= seq![a, b] + seq![c]);
    lemma_wire_list_concat(seq![sa, sb], seq![a, b], seq![sc], seq![c]);
    lemma_wire_list_single(sc, c);
}


/// The maximum over a prefix and a suffix is the larger of the two maxima.
pub proof fn lemma_variants_max_concat(a: Seq<VariantShape>, b: Seq<VariantShape>)
    ensures
        variants_max(a + b) == if variants_max(a) >= variants_max(b) {
            variants_max(a)
        } else {
            variants_max(b)
        },
    decreases a.len(),
{
    if a.len() == 0 {
        assert(a + b =~= b);
    } else {
        let at = a.subrange(1, a.len() as int);
        assert((a + b).subrange(1, (a + b).len() as int) =~= at + b);
        assert((a + b)[0] == a[0]);
        lemma_variants_max_concat(at, b);
    }
}

/// A one-variant list's maximum is that variant's field-size sum.
pub proof fn lemma_variants_max_single(x: VariantShape)
    ensures
        variants_max(seq![x]) == size_list(x.fields@),
{
    assert(seq![x].subrange(1, 1) =~= Seq::<VariantShape>::empty());
    assert(variants_max(Seq::<VariantShape>::empty()) == 0);
}

/// A list's bound splits around any position.
pub proof fn lemma_size_list_split(ss: Seq<Shape>, k: int)
    requires
        0 <= k < ss.len(),
    ensures
        size_list(ss) == size_list(ss.take(k)) + shape_max(ss[k]) + size_list(ss.skip(k + 1)),
{
    assert(ss =~= ss.take(k) + (seq![ss[k]] + ss.skip(k + 1)));
    lemma_size_list_concat(ss.take(k), seq![ss[k]] + ss.skip(k + 1));
    lemma_size_list_concat(seq![ss[k]], ss.skip(k + 1));
    lemma_size_list_single(ss[k]);
}

/// Whether each element of `vs` is a value of the element layout `e`.
fn fits_array_exec(e: &Shape, vs: &Vec<Value>) -> (r: bool)
    ensures
        r == fits_array(*e, vs@),
    decreases *e, 2int,
{
    let n = vs.len();
    let mut k: usize = 0;
    while k < n
        invariant
            k <= n,
            n == vs@.len(),
            forall|j: int| 0 <= j < k ==> fits(*e, #[trigger] vs@[j]),
        decreases n - k,
    {
        if !value_fits(e, &vs[k]) {
            assert(!fits_array(*e, vs@));
            return false;
        }
        k = k + 1;
    }
    true
}

/// Whether `vs` matches the field layouts `ss`, position by position.
fn fits_list_exec(ss: &Vec<Shape>, vs: &Vec<Value>) -> (r: bool)
    ensures
        r == fits_list(ss@, vs@),
    decreases ss@, 1int,
{
    let n = ss.len();
    if vs.len() != n {
        return false;
    }
    let mut k: usize = 0;
    while k < n
        invariant
            k <= n,
            n == ss@.len(),
            vs@.len() == n,
            forall|j: int| 0 <= j < k ==> fits(#[trigger] ss@[j], vs@[j]),
        decreases n - k,
    {
        if !value_fits(&ss[k], &vs[k]) {
            assert(!fits_list(ss@, vs@));
            return false;
        }
        k = k + 1;
    }
    true
}

/// Whether `v` is a value of layout `s`: the runtime check that
/// establishes the encoder's precondition.
pub fn value_fits(s: &Shape, v: &Value) -> (r: bool)
    ensures
        r == fits(*s, *v),
    decreases *s, 0int,
{
    match s {
        Shape::Bool => matches!(v, Value::Bool(_)),
        Shape::U8 => matches!(v, Value::U8(_)),
        Shape::U16 => matches!(v, Value::U16(_)),
        Shape::U32 => matches!(v, Value::U32(_)),
        Shape::U64 => matches!(v, Value::U64(_)),
        Shape::USize => matches!(v, Value::USize(_)),
        Shape::I8 => matches!(v, Value::I8(_)),
        Shape::I16 => matches!(v, Value::I16(_)),
        Shape::I32 => matches!(v, Value::I32(_)),
        Shape::I64 => matches!(v, Value::I64(_)),
        Shape::ISize => matches!(v, Value::ISize(_)),
        Shape::F32 => matches!(v, Value::F32(_)),
        Shape::F64 => matches!(v, Value::F64(_)),
        Shape::Unit => matches!(v, Value::Unit),
        Shape::Marker => matches!(v, Value::Marker),
        Shape::Nullable(t) => match v {
            Value::Nothing => true,
            Value::Just(b) => value_fits(&**t, &**b),
            _ => false,
        },
        Shape::Array(e, n) => match v {
            Value::List(vs) => vs.len() == *n && fits_array_exec(&**e, vs),
            _ => false,
        },
        Shape::Tuple(ss) => match v {
            Value::List(vs) => fits_list_exec(ss, vs),
            _ => false,
        },
        Shape::Decl(d) => decl_fits(&**d, v),
    }
}

/// Whether `v` is a value of the declared type `d`.
pub fn decl_fits(d: &TypeDecl, v: &Value) -> (r: bool)
    ensures
        r == fits_decl(*d, *v),
    decreases *d, 3int,
{
    match v {
        Value::Case(i, fs) => {
            if !((d.variants.len() as u64) <= 0x1_0000_0000u64) {
                return false;
            }
            if !(*i < d.variants.len()) {
                return false;
            }
            fits_list_exec(&d.variants[*i].fields, fs)
        },
        _ => false,
    }
}

/// The summed size bound of a list of field layouts, if it fits the
/// machine word.
pub fn list_size(ss: &Vec<Shape>) -> (r: Option<usize>)
    ensures
        match r {
            Option::Some(n) => n == size_list(ss@),
            Option::None => size_list(ss@) > usize::MAX,
        },
    decreases ss@, 1int,
{
    let n = ss.len();
    let mut acc: usize = 0;
    let mut k: usize = 0;
    while k < n
        invariant
            k <= n,
            n == ss@.len(),
            acc == size_list(ss@.take(k as int)),
        decreases n - k,
    {
        proof {
            lemma_size_list_split(ss@, k as int);
        }
        let m = match shape_max_size(&ss[k]) {
            Option::Some(m) => m,
            Option::None => {
                return Option::None;
            },
        };
        acc = match acc.checked_add(m) {
            Option::Some(a) => a,
            Option::None => {
                return Option::None;
            },
        };
        proof {
            assert(ss@.take(k + 1) =~= ss@.take(k as int) + seq![ss@[k as int]]);
            lemma_size_list_concat(ss@.take(k as int), seq![ss@[k as int]]);
            lemma_size_list_single(ss@[k as int]);
        }
        k = k + 1;
    }
    proof {
        assert(ss@.take(n as int) =~= ss@);
    }
    Option::Some(acc)
}

/// The largest per-variant field-size sum, if it fits the machine word.
fn variants_max_size(vars: &Vec<VariantShape>) -> (r: Option<usize>)
    ensures
        match r {
            Option::Some(n) => n == variants_max(vars@),
            Option::None => variants_max(vars@) > usize::MAX,
        },
    decreases vars@, 2int,
{
    let n = vars.len();
    let mut acc: usize = 0;
    let mut k: usize = 0;
    while k < n
        invariant
            k <= n,
            n == vars@.len(),
            acc == variants_max(vars@.take(k as int)),
        decreases n - k,
    {
        let m = match list_size(&vars[k].fields) {
            Option::Some(m) => m,
            Option::None => {
                proof {
                    lemma_variants_max_ge(vars@, k as int);
                }
                return Option::None;
            },
        };
        if m > acc {
            acc = m;
        }
        proof {
            assert(vars@.take(k + 1) =~= vars@.take(k as int) + seq![vars@[k as int]]);
            lemma_variants_max_concat(vars@.take(k as int), seq![vars@[k as int]]);
            lemma_variants_max_single(vars@[k as int]);
        }
        k = k + 1;
    }
    proof {
        assert(vars@.take(n as int) =~= vars@);
    }
    Option::Some(acc)
}

/// The size bound of one layout, if it fits the machine word.
#[verifier::spinoff_prover]
pub fn shape_max_size(s: &Shape) -> (r: Option<usize>)
    ensures
        r matches Option::Some(n) ==> n == shape_max(*s),
        r is None ==> shape_max(*s) > usize::MAX,
    decreases *s, 0int,
{
    match s {
        Shape::Bool => Option::Some(1),
        Shape::U8 => Option::Some(1),
        Shape::U16 => Option::Some(2),
        Shape::U32 => Option::Some(4),
        Shape::U64 => Option::Some(8),
        Shape::USize => Option::Some(8),
        Shape::I8 => Option::Some(1),
        Shape::I16 => Option::Some(2),
        Shape::I32 => Option::Some(4),
        Shape::I64 => Option::Some(8),
        Shape::ISize => Option::Some(8),
        Shape::F32 => Option::Some(4),
        Shape::F64 => Option::Some(8),
        Shape::Unit => Option::Some(0),
        Shape::Marker => Option::Some(0),
        Shape::Nullable(t) => match shape_max_size(&**t) {
            Option::Some(m) => m.checked_add(1),
            Option::None => Option::None,
        },
        Shape::Array(e, n) => {
            if *n == 0 {
                proof {
                    assert((*n) * shape_max(**e) == 0) by (nonlinear_arith)
                        requires *n == 0;
                }
                Option::Some(0)
            } else {
                match shape_max_size(&**e) {
                    Option::Some(m) => n.checked_mul(m),
                    Option::None => {
                        proof {
                            assert((*n) * shape_max(**e) >= 1 * shape_max(**e))
                                by (nonlinear_arith)
                                requires *n >= 1;
                        }
                        Option::None
                    },
                }
            }
        },
        Shape::Tuple(ss) => list_size(ss),
        Shape::Decl(d) => derive_max_size(&**d),
    }
}

/// Derive the worst-case encoded size of a declared type: the sum of its
/// field bounds for a product type; four discriminant bytes plus the
/// largest variant's sum for a sum type. Yields nothing only when the
/// bound cannot fit the machine word.
pub fn derive_max_size(d: &TypeDecl) -> (r: Option<usize>)
    ensures
        match r {
            Option::Some(n) => n == decl_max(*d),
            Option::None => decl_max(*d) > usize::MAX,
        },
    decreases *d, 3int,
{
    if d.variants.len() == 1 {
        list_size(&d.variants[0].fields)
    } else {
        match variants_max_size(&d.variants) {
            Option::Some(m) => m.checked_add(4),
            Option::None => Option::None,
        }
    }
}

/// Write the field values `vs` against the field layouts `ss`, in order.
fn encode_list<UP: UnsafePokable>(ss: &Vec<Shape>, vs: &Vec<Value>, up: UP) -> (r: UP)
    requires
        fits_list(ss@, vs@),
        size_list(ss@) <= up.room(),
    ensures
        r.written() == up.written() + wire_list(ss@, vs@),
        r.room() + wire_list(ss@, vs@).len() == up.room(),
    decreases ss@, 1int,
{
    let n = ss.len();
    let ghost w0 = up.written();
    let ghost r0 = up.room();
    let mut cur = up;
    let mut k: usize = 0;
    while k < n
        invariant
            k <= n,
            n == ss@.len(),
            vs@.len() == n,
            fits_list(ss@, vs@),
            size_list(ss@) <= r0,
            cur.written() == w0 + wire_list(ss@.take(k as int), vs@.take(k as int)),
            cur.room() + wire_list(ss@.take(k as int), vs@.take(k as int)).len() == r0,
        decreases n - k,
    {
        proof {
            lemma_size_list_split(ss@, k as int);
            assert(fits_list(ss@.take(k as int), vs@.take(k as int)));
            lemma_wire_list_within(ss@.take(k as int), vs@.take(k as int));
        }
        cur = encode_shape(&ss[k], &vs[k], cur);
        proof {
            assert(ss@.take(k + 1) =~= ss@.take(k as int) + seq![ss@[k as int]]);
            assert(vs@.take(k + 1) =~= vs@.take(k as int) + seq![vs@[k as int]]);
            lemma_wire_list_concat(
                ss@.take(k as int),
                vs@.take(k as int),
                seq![ss@[k as int]],
                seq![vs@[k as int]],
            );
            lemma_wire_list_single(ss@[k as int], vs@[k as int]);
            assert((w0 + wire_list(ss@.take(k as int), vs@.take(k as int))) + wire_of(
                ss@[k as int],
                vs@[k as int],
            ) =~= w0 + (wire_list(ss@.take(k as int), vs@.take(k as int)) + wire_of(
                ss@[k as int],
                vs@[k as int],
            )));
        }
        k = k + 1;
    }
    proof {
        assert(ss@.take(n as int) =~= ss@);
        assert(vs@.take(n as int) =~= vs@);
    }
    cur
}

/// Write the elements of `vs`, each of element layout `e`, in index order.
fn encode_array<UP: UnsafePokable>(e: &Shape, vs: &Vec<Value>, up: UP) -> (r: UP)
    requires
        fits_array(*e, vs@),
        vs@.len() * shape_max(*e) <= up.room(),
    ensures
        r.written() == up.written() + wire_array(*e, vs@),
        r.room() + wire_array(*e, vs@).len() == up.room(),
    decreases *e, 2int,
{
    let n = vs.len();
    let ghost w0 = up.written();
    let ghost r0 = up.room();
    let mut cur = up;
    let mut k: usize = 0;
    while k < n
        invariant
            k <= n,
            n == vs@.len(),
            fits_array(*e, vs@),
            n * shape_max(*e) <= r0,
            cur.written() == w0 + wire_array(*e, vs@.take(k as int)),
            cur.room() + wire_array(*e, vs@.take(k as int)).len() == r0,
        decreases n - k,
    {
        proof {
            assert(fits_array(*e, vs@.take(k as int)));
            lemma_wire_array_within(*e, vs@.take(k as int));
            assert(k * shape_max(*e) + (n - k) * shape_max(*e) == n * shape_max(*e))
                by (nonlinear_arith);
            assert((n - k) * shape_max(*e) >= 1 * shape_max(*e))
                by (nonlinear_arith)
                requires k < n;
        }
        cur = encode_shape(e, &vs[k], cur);
        proof {
            assert(vs@.take(k + 1) =~= vs@.take(k as int) + seq![vs@[k as int]]);
            lemma_wire_array_concat(*e, vs@.take(k as int), seq![vs@[k as int]]);
            lemma_wire_array_single(*e, vs@[k as int]);
            assert((w0 + wire_array(*e, vs@.take(k as int))) + wire_of(*e, vs@[k as int]) =~= w0
                + (wire_array(*e, vs@.take(k as int)) + wire_of(*e, vs@[k as int])));
        }
        k = k + 1;
    }
    proof {
        assert(vs@.take(n as int) =~= vs@);
    }
    cur
}

/// Write `v`, a value of layout `s`, into the destination, advancing it
/// by exactly the value's wire length. The caller must have the layout's
/// full static bound free.
pub fn encode_shape<UP: UnsafePokable>(s: &Shape, v: &Value, up: UP) -> (r: UP)
    requires
        fits(*s, *v),
        shape_max(*s) <= up.room(),
    ensures
        r.written() == up.written() + wire_of(*s, *v),
        r.room() + wire_of(*s, *v).len() == up.room(),
    decreases *s, 0int,
{
    match s {
        Shape::Bool => match v {
            Value::Bool(x) => {
                proof {
                    (*x).pod_wire_len();
                }
                up.poke_pod(*x)
            },
            _ => unreached(),
        },
        Shape::U8 => match v {
            Value::U8(x) => {
                proof {
                    (*x).pod_wire_len();
                }
                up.poke_pod(*x)
            },
            _ => unreached(),
        },
        Shape::U16 => match v {
            Value::U16(x) => {
                proof {
                    (*x).pod_wire_len();
                }
                up.poke_pod(*x)
            },
            _ => unreached(),
        },
        Shape::U32 => match v {
            Value::U32(x) => {
                proof {
                    (*x).pod_wire_len();
                }
                up.poke_pod(*x)
            },
            _ => unreached(),
        },
        Shape::U64 => match v {
            Value::U64(x) => {
                proof {
                    (*x).pod_wire_len();
                }
                up.poke_pod(*x)
            },
            _ => unreached(),
        },
        Shape::USize => match v {
            Value::USize(x) => {
                proof {
                    (*x).pod_wire_len();
                }
                up.poke_pod(*x)
            },
            _ => unreached(),
        },
        Shape::I8 => match v {
            Value::I8(x) => {
                proof {
                    (*x).pod_wire_len();
                }
                up.poke_pod(*x)
            },
            _ => unreached(),
        },
        Shape::I16 => match v {
            Value::I16(x) => {
                proof {
                    (*x).pod_wire_len();
                }
                up.poke_pod(*x)
            },
            _ => unreached(),
        },
        Shape::I32 => match v {
            Value::I32(x) => {
                proof {
                    (*x).pod_wire_len();
                }
                up.poke_pod(*x)
            },
            _ => unreached(),
        },
        Shape::I64 => match v {
            Value::I64(x) => {
                proof {
                    (*x).pod_wire_len();
                }
                up.poke_pod(*x)
            },
            _ => unreached(),
        },
        Shape::ISize => match v {
            Value::ISize(x) => {
                proof {
                    (*x).pod_wire_len();
                }
                up.poke_pod(*x)
            },
            _ => unreached(),
        },
        Shape::F32 => match v {
            Value::F32(x) => {
                proof {
                    F32Bits(*x).pod_wire_len();
                }
                up.poke_pod(F32Bits(*x))
            },
            _ => unreached(),
        },
        Shape::F64 => match v {
            Value::F64(x) => {
                proof {
                    F64Bits(*x).pod_wire_len();
                }
                up.poke_pod(F64Bits(*x))
            },
            _ => unreached(),
        },
        Shape::Unit => {
            proof {
                assert(up.written() + Seq::<u8>::empty() =~= up.written());
            }
            up
        },
        Shape::Marker => {
            proof {
                assert(up.written() + Seq::<u8>::empty() =~= up.written());
            }
            up
        },
        Shape::Nullable(t) => match v {
            Value::Nothing => {
                proof {
                    crate::wire::lemma_le_bytes_single(0);
                    assert(0u8.pod_wire() =~= seq![0u8]);
                }
                up.poke_pod(0u8)
            },
            Value::Just(b) => {
                proof {
                    crate::wire::lemma_le_bytes_single(1);
                    assert(1u8.pod_wire() =~= seq![1u8]);
                }
                let ghost w0 = up.written();
                let mid = up.poke_pod(1u8);
                let r = encode_shape(&**t, &**b, mid);
                proof {
                    assert((w0 + seq![1u8]) + wire_of(**t, **b) =~= w0 + (seq![1u8] + wire_of(
                        **t,
                        **b,
                    )));
                }
                r
            },
            _ => unreached(),
        },
        Shape::Array(e, n) => match v {
            Value::List(vs) => encode_array(&**e, vs, up),
            _ => unreached(),
        },
        Shape::Tuple(ss) => match v {
            Value::List(vs) => encode_list(ss, vs, up),
            _ => unreached(),
        },
        Shape::Decl(d) => derive_encode(&**d, v, up),
    }
}

/// Derive the encode procedure of a declared type and run it: a sum type
/// writes the four-byte little-endian discriminant (the variant's 0-based
/// declaration index) and then the variant's fields in declaration order;
/// a product type writes its fields alone, with no discriminant.
pub fn derive_encode<UP: UnsafePokable>(d: &TypeDecl, v: &Value, up: UP) -> (r: UP)
    requires
        fits_decl(*d, *v),
        decl_max(*d) <= up.room(),
    ensures
        r.written() == up.written() + wire_decl(*d, *v),
        r.room() + wire_decl(*d, *v).len() == up.room(),
    decreases *d, 3int,
{
    match v {
        Value::Case(i, fs) => {
            if d.variants.len() == 1 {
                let r = encode_list(&d.variants[0].fields, fs, up);
                proof {
                    assert(Seq::<u8>::empty() + wire_list(d.variants@[0].fields@, fs@)
                        =~= wire_list(d.variants@[0].fields@, fs@));
                }
                r
            } else {
                let disc: u32 = (*i) as u32;
                let ghost w0 = up.written();
                proof {
                    lemma_variants_max_ge(d.variants@, *i as int);
                    crate::wire::lemma_le_bytes_len(*i as nat, 4);
                    disc.pod_wire_len();
                }
                let mid = up.poke_pod(disc);
                let r = encode_list(&d.variants[*i].fields, fs, mid);
                proof {
                    assert(le_bytes(disc as nat, 4) =~= le_bytes(*i as nat, 4));
                    assert((w0 + le_bytes(*i as nat, 4)) + wire_list(
                        d.variants@[*i as int].fields@,
                        fs@,
                    ) =~= w0 + (le_bytes(*i as nat, 4) + wire_list(
                        d.variants@[*i as int].fields@,
                        fs@,
                    )));
                }
                r
            }
        },
        _ => unreached(),
    }
}

/// Derive a declared type's encoder and run it end to end: size a fresh
/// buffer from the declaration's bound, write the value, and hand back
/// exactly the written bytes. Yields nothing when the value is not of the
/// declared type, or when the bound cannot fit the machine word.
pub fn derive_encode_to_vec(d: &TypeDecl, v: &Value) -> (r: Option<Vec<u8>>)
    ensures
        r matches Option::Some(bytes) ==> fits_decl(*d, *v) && decl_max(*d) <= usize::MAX
            && bytes@ == wire_decl(*d, *v),
        r is None ==> !fits_decl(*d, *v) || decl_max(*d) > usize::MAX,
{
    if !decl_fits(d, v) {
        return Option::None;
    }
    let m = match derive_max_size(d) {
        Option::Some(m) => m,
        Option::None => {
            return Option::None;
        },
    };
    let mut buf: Vec<u8> = Vec::new();
    let mut k: usize = 0;
    while k < m
        invariant
            k <= m,
            buf@.len() == k,
        decreases m - k,
    {
        buf.push(0u8);
        k = k + 1;
    }
    let p = crate::sink::Poker::new(buf);
    let p2 = derive_encode(d, v, p);
    proof {
        assert(Seq::<u8>::empty() + wire_decl(*d, *v) =~= wire_decl(*d, *v));
    }
    Option::Some(p2.into_vec())
}

/// Encode one value of layout `s` end to end, as `derive_encode_to_vec`
/// does for a declared type.
pub fn encode_to_vec(s: &Shape, v: &Value) -> (r: Option<Vec<u8>>)
    ensures
        r matches Option::Some(bytes) ==> fits(*s, *v) && shape_max(*s) <= usize::MAX
            && bytes@ == wire_of(*s, *v),
        r is None ==> !fits(*s, *v) || shape_max(*s) > usize::MAX,
{
    if !value_fits(s, v) {
        return Option::None;
    }
    let m = match shape_max_size(s) {
        Option::Some(m) => m,
        Option::None => {
            return Option::None;
        },
    };
    let mut buf: Vec<u8> = Vec::new();
    let mut k: usize = 0;
    while k < m
        invariant
            k <= m,
            buf@.len() == k,
        decreases m - k,
    {
        buf.push(0u8);
        k = k + 1;
    }
    let p = crate::sink::Poker::new(buf);
    let p2 = encode_shape(s, v, p);
    proof {
        assert(Seq::<u8>::empty() + wire_of(*s, *v) =~= wire_of(*s, *v));
    }
    Option::Some(p2.into_vec())
}

} // verus!



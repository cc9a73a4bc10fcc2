//! The type lattice: primitive-type bit sets, object shapes, and the
//! signatures of functions, methods and constructors.

use vstd::prelude::*;

verus! {

pub const SHAPE_NONE: u64 = 0;

pub const SHAPE_STATIC: u64 = 0x1;

pub const SHAPE_OBJECT: u64 = 0x2;

pub const SHAPE_ARRAY: u64 = 0x6;

pub const SHAPE_ARRAY_BUFFER: u64 = 0xa;

pub const SHAPE_TYPED_ARRAY: u64 = 0x12;

pub const SHAPE_REFLECT: u64 = 0x22;

pub const SHAPE_MATH: u64 = 0x42;

pub const SHAPE_STRING: u64 = 0x82;

pub const SHAPE_CUSTOM: u64 = 0x102;

pub const SHAPE_ANY: u64 = 0xffff_ffff_ffff_ffff;

/// The kind of object a variable denotes, as a set of bits. Primitive values
/// have the empty shape. Every object shape but the static flag carries the
/// object bit; the static flag marks the constructor object rather than an
/// instance of it.
#[derive(Clone, Copy, Debug, PartialEq, Eq, Structural)]
pub struct Shape {
    pub bits: u64,
}

impl Shape {
    /// The shape of a primitive value.
    #[verifier::allow_in_spec]
    pub fn none() -> Shape
        returns
            (Shape { bits: SHAPE_NONE }),
    {
        Shape { bits: SHAPE_NONE }
    }

    /// The flag that marks the constructor object rather than an instance.
    #[verifier::allow_in_spec]
    pub fn statik() -> Shape
        returns
            (Shape { bits: SHAPE_STATIC }),
    {
        Shape { bits: SHAPE_STATIC }
    }

    /// A plain object.
    #[verifier::allow_in_spec]
    pub fn object() -> Shape
        returns
            (Shape { bits: SHAPE_OBJECT }),
    {
        Shape { bits: SHAPE_OBJECT }
    }

    /// An array.
    #[verifier::allow_in_spec]
    pub fn array() -> Shape
        returns
            (Shape { bits: SHAPE_ARRAY }),
    {
        Shape { bits: SHAPE_ARRAY }
    }

    /// An array buffer.
    #[verifier::allow_in_spec]
    pub fn array_buffer() -> Shape
        returns
            (Shape { bits: SHAPE_ARRAY_BUFFER }),
    {
        Shape { bits: SHAPE_ARRAY_BUFFER }
    }

    /// A typed array.
    #[verifier::allow_in_spec]
    pub fn typed_array() -> Shape
        returns
            (Shape { bits: SHAPE_TYPED_ARRAY }),
    {
        Shape { bits: SHAPE_TYPED_ARRAY }
    }

    /// The `Reflect` namespace.
    #[verifier::allow_in_spec]
    pub fn reflect() -> Shape
        returns
            (Shape { bits: SHAPE_REFLECT }),
    {
        Shape { bits: SHAPE_REFLECT }
    }

    /// The `Math` namespace.
    #[verifier::allow_in_spec]
    pub fn math() -> Shape
        returns
            (Shape { bits: SHAPE_MATH }),
    {
        Shape { bits: SHAPE_MATH }
    }

    /// A string object.
    #[verifier::allow_in_spec]
    pub fn string() -> Shape
        returns
            (Shape { bits: SHAPE_STRING }),
    {
        Shape { bits: SHAPE_STRING }
    }

    /// An object literal built by the program.
    #[verifier::allow_in_spec]
    pub fn custom() -> Shape
        returns
            (Shape { bits: SHAPE_CUSTOM }),
    {
        Shape { bits: SHAPE_CUSTOM }
    }

    /// Any object at all: every bit is set.
    #[verifier::allow_in_spec]
    pub fn any() -> Shape
        returns
            (Shape { bits: SHAPE_ANY }),
    {
        Shape { bits: SHAPE_ANY }
    }

    /// The shape with the bits of both.
    #[verifier::allow_in_spec]
    pub fn union(self, other: Shape) -> Shape
        returns
            (Shape { bits: self.bits | other.bits }),
    {
        Shape { bits: self.bits | other.bits }
    }

    /// The shape with the bits that both have.
    #[verifier::allow_in_spec]
    pub fn intersection(self, other: Shape) -> Shape
        returns
            (Shape { bits: self.bits & other.bits }),
    {
        Shape { bits: self.bits & other.bits }
    }

    /// The shape with exactly the bits that `self` lacks.
    #[verifier::allow_in_spec]
    pub fn complement(self) -> Shape
        returns
            (Shape { bits: !self.bits }),
    {
        Shape { bits: !self.bits }
    }

    /// True when every bit of `other` is set in `self`.
    #[verifier::allow_in_spec]
    pub fn contains(&self, other: Shape) -> bool
        returns
            self.bits & other.bits == other.bits,
    {
        self.bits & other.bits == other.bits
    }

    /// True when the shape is that of a constructor object.
    #[verifier::allow_in_spec]
    pub fn is_static(&self) -> bool
        returns
            self.bits & SHAPE_STATIC != 0,
    {
        self.bits & SHAPE_STATIC != 0
    }

    /// True when no bit but the object bit is set.
    #[verifier::allow_in_spec]
    pub fn is_pure_object(&self) -> bool
        returns
            self.bits & !SHAPE_OBJECT == 0,
    {
        self.bits & !SHAPE_OBJECT == 0
    }

    /// Clears the static flag and reports whether it was set.
    pub fn fetch_clear_static(&mut self) -> (r: bool)
        ensures
            r == old(self).is_static(),
            final(self).bits == old(self).bits & !SHAPE_STATIC,
    {
        let ret = self.is_static();
        self.bits = self.bits & !SHAPE_STATIC;
        ret
    }
}

pub const PTYPE_NONE: u8 = 0;

pub const PTYPE_INT: u8 = 0x01;

pub const PTYPE_FLOAT: u8 = 0x02;

pub const PTYPE_STRING: u8 = 0x04;

pub const PTYPE_BOOL: u8 = 0x08;

pub const PTYPE_FUNCTION: u8 = 0x10;

pub const PTYPE_UNDEFINED: u8 = 0x20;

pub const PTYPE_UNKNOWN: u8 = 0x40;

pub const PTYPE_OBJECT: u8 = 0x80;

pub const PTYPE_ANY: u8 = 0xff;

/// The primitive types a value may have, as a set of bits.
#[derive(Clone, Copy, Debug, PartialEq, Eq, Structural)]
pub struct PType {
    pub bits: u8,
}

impl PType {
    /// The empty set.
    #[verifier::allow_in_spec]
    pub fn none() -> PType
        returns
            (PType { bits: PTYPE_NONE }),
    {
        PType { bits: PTYPE_NONE }
    }

    /// An integer.
    #[verifier::allow_in_spec]
    pub fn integer() -> PType
        returns
            (PType { bits: PTYPE_INT }),
    {
        PType { bits: PTYPE_INT }
    }

    /// A floating-point number.
    #[verifier::allow_in_spec]
    pub fn float() -> PType
        returns
            (PType { bits: PTYPE_FLOAT }),
    {
        PType { bits: PTYPE_FLOAT }
    }

    /// A string.
    #[verifier::allow_in_spec]
    pub fn string() -> PType
        returns
            (PType { bits: PTYPE_STRING }),
    {
        PType { bits: PTYPE_STRING }
    }

    /// A boolean.
    #[verifier::allow_in_spec]
    pub fn boolean() -> PType
        returns
            (PType { bits: PTYPE_BOOL }),
    {
        PType { bits: PTYPE_BOOL }
    }

    /// A function.
    #[verifier::allow_in_spec]
    pub fn function() -> PType
        returns
            (PType { bits: PTYPE_FUNCTION }),
    {
        PType { bits: PTYPE_FUNCTION }
    }

    /// The undefined value.
    #[verifier::allow_in_spec]
    pub fn undefined() -> PType
        returns
            (PType { bits: PTYPE_UNDEFINED }),
    {
        PType { bits: PTYPE_UNDEFINED }
    }

    /// Not yet known.
    #[verifier::allow_in_spec]
    pub fn unknown() -> PType
        returns
            (PType { bits: PTYPE_UNKNOWN }),
    {
        PType { bits: PTYPE_UNKNOWN }
    }

    /// An object.
    #[verifier::allow_in_spec]
    pub fn object() -> PType
        returns
            (PType { bits: PTYPE_OBJECT }),
    {
        PType { bits: PTYPE_OBJECT }
    }

    /// Every primitive type.
    #[verifier::allow_in_spec]
    pub fn any() -> PType
        returns
            (PType { bits: PTYPE_ANY }),
    {
        PType { bits: PTYPE_ANY }
    }

    /// The set with the bits of both.
    #[verifier::allow_in_spec]
    pub fn union(self, other: PType) -> PType
        returns
            (PType { bits: self.bits | other.bits }),
    {
        PType { bits: self.bits | other.bits }
    }

    /// The set with the bits that both have.
    #[verifier::allow_in_spec]
    pub fn intersection(self, other: PType) -> PType
        returns
            (PType { bits: self.bits & other.bits }),
    {
        PType { bits: self.bits & other.bits }
    }

    /// True when every bit of `other` is set in `self`.
    #[verifier::allow_in_spec]
    pub fn contains(&self, other: PType) -> bool
        returns
            self.bits & other.bits == other.bits,
    {
        self.bits & other.bits == other.bits
    }
}

/// A type: the primitive types a value may have and, where it may be an
/// object, the shape of that object.
#[derive(Clone, Copy, Debug, PartialEq, Eq, Structural)]
pub struct Type {
    pub ptype: PType,
    pub shape: Shape,
}

impl Type {
    /// A type from its primitive types and its shape.
    #[verifier::allow_in_spec]
    pub fn new(ptype: PType, shape: Shape) -> Type
        returns
            (Type { ptype, shape }),
    {
        Type { ptype, shape }
    }

    /// The unknown type.
    #[verifier::allow_in_spec]
    pub fn default() -> Type
        returns
            Type::unknown_type(),
    {
        Type::unknown_type()
    }

    /// A primitive type: the shape is empty.
    #[verifier::allow_in_spec]
    pub fn basic(ptype: PType) -> Type
        returns
            (Type { ptype, shape: Shape::none() }),
    {
        Type { ptype, shape: Shape::none() }
    }

    /// An object of the given shape.
    #[verifier::allow_in_spec]
    pub fn obj(shape: Shape) -> Type
        returns
            (Type { ptype: PType::object(), shape }),
    {
        Type { ptype: PType::object(), shape }
    }

    /// The type of integers.
    #[verifier::allow_in_spec]
    pub fn int_type() -> Type
        returns
            (Type { ptype: PType::integer(), shape: Shape::none() }),
    {
        Type { ptype: PType::integer(), shape: Shape::none() }
    }

    /// The type of floating-point numbers.
    #[verifier::allow_in_spec]
    pub fn float_type() -> Type
        returns
            (Type { ptype: PType::float(), shape: Shape::none() }),
    {
        Type { ptype: PType::float(), shape: Shape::none() }
    }

    /// The type of strings.
    #[verifier::allow_in_spec]
    pub fn string_type() -> Type
        returns
            (Type { ptype: PType::string(), shape: Shape::string() }),
    {
        Type { ptype: PType::string(), shape: Shape::string() }
    }

    /// The type of booleans.
    #[verifier::allow_in_spec]
    pub fn bool_type() -> Type
        returns
            (Type { ptype: PType::boolean(), shape: Shape::none() }),
    {
        Type { ptype: PType::boolean(), shape: Shape::none() }
    }

    /// The type of functions.
    #[verifier::allow_in_spec]
    pub fn function_type() -> Type
        returns
            (Type { ptype: PType::function(), shape: Shape::none() }),
    {
        Type { ptype: PType::function(), shape: Shape::none() }
    }

    /// The type of the undefined value.
    #[verifier::allow_in_spec]
    pub fn undefined_type() -> Type
        returns
            (Type { ptype: PType::undefined(), shape: Shape::none() }),
    {
        Type { ptype: PType::undefined(), shape: Shape::none() }
    }

    /// The type of a value of which nothing is known yet.
    #[verifier::allow_in_spec]
    pub fn unknown_type() -> Type
        returns
            (Type { ptype: PType::unknown(), shape: Shape::none() }),
    {
        Type { ptype: PType::unknown(), shape: Shape::none() }
    }

    /// The type of objects of any shape.
    #[verifier::allow_in_spec]
    pub fn object_type() -> Type
        returns
            (Type { ptype: PType::object(), shape: Shape::any() }),
    {
        Type { ptype: PType::object(), shape: Shape::any() }
    }

    /// The type that every primitive type and every shape belongs to.
    #[verifier::allow_in_spec]
    pub fn any_type() -> Type
        returns
            (Type { ptype: PType::any(), shape: Shape::any() }),
    {
        Type { ptype: PType::any(), shape: Shape::any() }
    }

    /// The type of arrays.
    #[verifier::allow_in_spec]
    pub fn array_type() -> Type
        returns
            (Type { ptype: PType::object(), shape: Shape::array() }),
    {
        Type { ptype: PType::object(), shape: Shape::array() }
    }

    /// The type of typed arrays.
    #[verifier::allow_in_spec]
    pub fn typed_array_type() -> Type
        returns
            (Type { ptype: PType::object(), shape: Shape::typed_array() }),
    {
        Type { ptype: PType::object(), shape: Shape::typed_array() }
    }

    /// True when a value of this type may be an integer.
    #[verifier::allow_in_spec]
    pub fn is_int(&self) -> bool
        returns
            self.ptype.bits & PTYPE_INT == PTYPE_INT,
    {
        self.ptype.bits & PTYPE_INT == PTYPE_INT
    }

    /// True when a value of this type may be a floating-point number.
    #[verifier::allow_in_spec]
    pub fn is_float(&self) -> bool
        returns
            self.ptype.bits & PTYPE_FLOAT == PTYPE_FLOAT,
    {
        self.ptype.bits & PTYPE_FLOAT == PTYPE_FLOAT
    }

    /// True when a value of this type may be a boolean.
    #[verifier::allow_in_spec]
    pub fn is_bool(&self) -> bool
        returns
            self.ptype.bits & PTYPE_BOOL == PTYPE_BOOL,
    {
        self.ptype.bits & PTYPE_BOOL == PTYPE_BOOL
    }

    /// True when a value of this type may be a string.
    #[verifier::allow_in_spec]
    pub fn is_string(&self) -> bool
        returns
            self.ptype.bits & PTYPE_STRING == PTYPE_STRING,
    {
        self.ptype.bits & PTYPE_STRING == PTYPE_STRING
    }

    /// True when a value of this type may be a function.
    #[verifier::allow_in_spec]
    pub fn is_function(&self) -> bool
        returns
            self.ptype.bits & PTYPE_FUNCTION == PTYPE_FUNCTION,
    {
        self.ptype.bits & PTYPE_FUNCTION == PTYPE_FUNCTION
    }

    /// True when a value of this type may be undefined.
    #[verifier::allow_in_spec]
    pub fn is_undefined(&self) -> bool
        returns
            self.ptype.bits & PTYPE_UNDEFINED == PTYPE_UNDEFINED,
    {
        self.ptype.bits & PTYPE_UNDEFINED == PTYPE_UNDEFINED
    }

    /// True when a value of this type may be unknown.
    #[verifier::allow_in_spec]
    pub fn is_unknown(&self) -> bool
        returns
            self.ptype.bits & PTYPE_UNKNOWN == PTYPE_UNKNOWN,
    {
        self.ptype.bits & PTYPE_UNKNOWN == PTYPE_UNKNOWN
    }

    /// True when a value of this type may be an object.
    #[verifier::allow_in_spec]
    pub fn is_object(&self) -> bool
        returns
            self.ptype.bits & PTYPE_OBJECT == PTYPE_OBJECT,
    {
        self.ptype.bits & PTYPE_OBJECT == PTYPE_OBJECT
    }

    /// True when the type is exactly one of integer, float, boolean and
    /// undefined.
    #[verifier::allow_in_spec]
    pub fn is_numeric(&self) -> bool
        returns
            (self.ptype.bits == PTYPE_INT || self.ptype.bits == PTYPE_FLOAT || self.ptype.bits
                == PTYPE_BOOL || self.ptype.bits == PTYPE_UNDEFINED),
    {
        self.ptype.bits == PTYPE_INT || self.ptype.bits == PTYPE_FLOAT || self.ptype.bits
            == PTYPE_BOOL || self.ptype.bits == PTYPE_UNDEFINED
    }

    /// True when a value of this type may be an integer or a boolean.
    #[verifier::allow_in_spec]
    pub fn is_integer(&self) -> bool
        returns
            (self.is_int() || self.is_bool()),
    {
        self.is_int() || self.is_bool()
    }

    /// The union of two types: the primitive types of both and the shape
    /// bits of both.
    #[verifier::allow_in_spec]
    pub fn union(self, rhs: Type) -> Type
        returns
            (Type { ptype: self.ptype.union(rhs.ptype), shape: self.shape.union(rhs.shape) }),
    {
        Type { ptype: self.ptype.union(rhs.ptype), shape: self.shape.union(rhs.shape) }
    }

    /// Containment: the two types share a primitive type other than object,
    /// or both may be objects and the shapes agree, which they do when the
    /// shape of `rhs` is any shape or has a bit in common with that of `self`.
    pub open spec fn spec_contains(&self, rhs: Type) -> bool {
        ||| self.ptype.bits & rhs.ptype.bits & !PTYPE_OBJECT != 0
        ||| (self.is_object() && rhs.is_object() && (rhs.shape.bits == SHAPE_ANY || rhs.shape.bits
            & self.shape.bits != 0))
    }

    /// Tells whether a value of type `self` can stand where `rhs` is asked
    /// for.
    #[verifier::when_used_as_spec(spec_contains)]
    pub fn contains(&self, rhs: Type) -> (r: bool)
        ensures
            r == self.spec_contains(rhs),
    {
        let a: u8 = self.ptype.bits;
        let b: u8 = rhs.ptype.bits;
        if !self.is_object() || !rhs.is_object() {
            assert((a & 0x80 != 0x80 || b & 0x80 != 0x80) ==> ((a & b != 0) == (a & b & !0x80u8
                != 0))) by (bit_vector);
            return a & b != 0;
        }
        if (a & b) & !PTYPE_OBJECT != 0 {
            return true;
        }
        rhs.shape.bits == SHAPE_ANY || (rhs.shape.bits & self.shape.bits) != 0
    }
}

impl core::ops::BitOr for Type {
    type Output = Type;

    fn bitor(self, rhs: Type) -> (r: Type) {
        self.union(rhs)
    }
}

impl vstd::std_specs::ops::BitOrSpecImpl for Type {
    open spec fn obeys_bitor_spec() -> bool {
        true
    }

    open spec fn bitor_req(self, rhs: Type) -> bool {
        true
    }

    open spec fn bitor_spec(self, rhs: Type) -> Type {
        self.union(rhs)
    }
}

/// Every shape contains itself, and the shape with every bit set contains
/// every shape.
pub proof fn lemma_shape_contains(s: Shape)
    ensures
        s.contains(s),
        Shape::any().contains(s),
{
    let b = s.bits;
    assert(b & b == b) by (bit_vector);
    assert(0xffff_ffff_ffff_ffffu64 & b == b) by (bit_vector);
}

/// A type contains itself exactly when it has a primitive type at all and is
/// not the bare object type with the empty shape.
pub proof fn lemma_type_contains_reflexive(t: Type)
    ensures
        t.contains(t) <==> (t.ptype.bits != 0 && !(t.ptype.bits == PTYPE_OBJECT && t.shape.bits
            == 0)),
{
    let p = t.ptype.bits;
    let s = t.shape.bits;
    assert(s & s == s) by (bit_vector);
    assert(p & p & !0x80u8 != 0 || p & 0x80 == 0x80 || p == 0) by (bit_vector);
    assert(p & p & !0x80u8 != 0 ==> p != 0 && p != 0x80) by (bit_vector);
    assert(p & 0x80 == 0x80 && p & p & !0x80u8 == 0 ==> p == 0x80) by (bit_vector);
}

/// An object of any shape but the empty one is contained in itself, in the
/// type of all objects and in the type of everything.
pub proof fn lemma_object_containment(s: Shape)
    requires
        s.bits != 0,
    ensures
        Type::obj(s).contains(Type::obj(s)),
        Type::object_type().contains(Type::obj(s)),
        Type::any_type().contains(Type::obj(s)),
{
    let b = s.bits;
    assert(b & b == b) by (bit_vector);
    assert(b & 0xffff_ffff_ffff_ffffu64 == b) by (bit_vector);
    assert(0x80u8 & 0x80 == 0x80) by (bit_vector);
    assert(0xffu8 & 0x80 == 0x80) by (bit_vector);
}

/// A plain object can stand for every shape that has the object bit.
pub proof fn lemma_plain_object_contains(s: Shape)
    requires
        s.bits & SHAPE_OBJECT != 0,
    ensures
        Type::obj(Shape::object()).contains(Type::obj(s)),
{
    let b = s.bits;
    assert(b & 2 != 0 ==> b & 2 != 0);
    assert(0x80u8 & 0x80 == 0x80) by (bit_vector);
}

/// A constructor object cannot stand for an instance: the bare static shape
/// contains no shape without the static flag.
pub proof fn lemma_static_excludes_instances(s: Shape)
    requires
        !s.is_static(),
    ensures
        !Type::obj(Shape::statik()).contains(Type::obj(s)),
{
    let b = s.bits;
    assert(b & 1 == 0 ==> b != 0xffff_ffff_ffff_ffffu64) by (bit_vector);
    assert(0x80u8 & 0x80 & !0x80u8 == 0) by (bit_vector);
}

/// What a function definition in the program takes and returns.
pub struct FunctionSignature {
    pub num_inputs: u8,
    pub input_types: Vec<Type>,
    pub is_constructing: bool,
    pub output_type: Type,
}

/// The mathematical value of a `FunctionSignature`.
pub ghost struct FunctionSignatureView {
    pub num_inputs: u8,
    pub input_types: Seq<Type>,
    pub is_constructing: bool,
    pub output_type: Type,
}

impl View for FunctionSignature {
    type V = FunctionSignatureView;

    open spec fn view(&self) -> FunctionSignatureView {
        FunctionSignatureView {
            num_inputs: self.num_inputs,
            input_types: self.input_types@,
            is_constructing: self.is_constructing,
            output_type: self.output_type,
        }
    }
}

impl FunctionSignatureView {
    /// The signature of a function whose definition has just begun: every
    /// parameter and the result are unknown.
    pub open spec fn fresh(num_inputs: u8) -> FunctionSignatureView {
        FunctionSignatureView {
            num_inputs,
            input_types: Seq::new(num_inputs as nat, |i: int| Type::unknown_type()),
            is_constructing: true,
            output_type: Type::unknown_type(),
        }
    }

    /// There is one parameter type for each parameter.
    pub open spec fn wf(self) -> bool {
        self.input_types.len() == self.num_inputs
    }

    /// What recording `output_type` as a return type leaves: the primitive
    /// types add up, the shape is replaced.
    pub open spec fn with_output_type(self, output_type: Type) -> FunctionSignatureView {
        FunctionSignatureView {
            output_type: Type {
                ptype: self.output_type.ptype.union(output_type.ptype),
                shape: output_type.shape,
            },
            ..self
        }
    }
}

impl FunctionSignature {
    /// There is one parameter type for each parameter.
    pub open spec fn wf(&self) -> bool {
        self@.wf()
    }

    /// The signature of a function with `num_inputs` parameters whose
    /// definition begins.
    pub fn new(num_inputs: u8) -> (r: FunctionSignature)
        ensures
            r@ == FunctionSignatureView::fresh(num_inputs),
            r.wf(),
    {
        let mut input_types: Vec<Type> = Vec::new();
        let mut i: u8 = 0;
        while i < num_inputs
            invariant
                i <= num_inputs,
                input_types@.len() == i,
                forall|j: int| 0 <= j < i ==> input_types@[j] == Type::unknown_type(),
            decreases num_inputs - i,
        {
            input_types.push(Type::default());
            i = i + 1;
        }
        assert(input_types@ =~= Seq::new(num_inputs as nat, |i: int| Type::unknown_type()));
        FunctionSignature {
            num_inputs,
            input_types,
            is_constructing: true,
            output_type: Type::default(),
        }
    }

    /// True between the beginning and the end of the function's definition.
    pub fn is_constructing(&self) -> (r: bool)
        ensures
            r == self@.is_constructing,
    {
        self.is_constructing
    }

    /// The number of parameters.
    pub fn args_count(&self) -> (r: u8)
        ensures
            r == self@.num_inputs,
    {
        self.num_inputs
    }

    /// Records one more type that the function may return: the primitive
    /// types add up, the shape is replaced.
    pub fn set_output_type(&mut self, output_type: Type)
        ensures
            final(self)@ == old(self)@.with_output_type(output_type),
    {
        self.output_type.ptype = self.output_type.ptype.union(output_type.ptype);
        self.output_type.shape = output_type.shape;
    }

    /// The type that the function returns, as far as it is known.
    pub fn get_output_type(&self) -> (r: Type)
        ensures
            r == self@.output_type,
    {
        self.output_type
    }

    /// Marks the function as being defined.
    pub fn set_is_constructing(&mut self)
        ensures
            final(self)@ == (FunctionSignatureView { is_constructing: true, ..old(self)@ }),
    {
        self.is_constructing = true;
    }

    /// Marks the function's definition as complete.
    pub fn done_constructing(&mut self)
        ensures
            final(self)@ == (FunctionSignatureView { is_constructing: false, ..old(self)@ }),
    {
        self.is_constructing = false;
    }

    /// Replaces the type of the parameter at `idx`.
    pub fn _set_input_type_at(&mut self, idx: usize, itype: Type)
        requires
            idx < old(self)@.input_types.len(),
        ensures
            final(self)@ == (FunctionSignatureView {
                input_types: old(self)@.input_types.update(idx as int, itype),
                ..old(self)@
            }),
    {
        self.input_types[idx] = itype;
    }

    /// Replaces the parameter types. There must be one for each parameter.
    pub fn set_input_types(&mut self, input_types: Vec<Type>)
        requires
            input_types@.len() == old(self)@.num_inputs,
        ensures
            final(self)@ == (FunctionSignatureView { input_types: input_types@, ..old(self)@ }),
            final(self).wf(),
    {
        self.input_types = input_types;
    }

    /// The parameter types.
    pub fn get_input_types(&self) -> (r: &Vec<Type>)
        ensures
            r@ == self@.input_types,
    {
        &self.input_types
    }
}

impl Clone for FunctionSignature {
    fn clone(&self) -> (r: FunctionSignature)
        ensures
            r@ == self@,
    {
        let input_types = self.input_types.clone();
        assert(input_types@ =~= self.input_types@);
        FunctionSignature {
            num_inputs: self.num_inputs,
            input_types,
            is_constructing: self.is_constructing,
            output_type: self.output_type,
        }
    }
}

/// One entry in the parameter list of a method: a required argument, an
/// optional one, or one that may be given up to a number of times.
#[derive(Clone, Copy, Debug, PartialEq, Eq, Structural)]
pub enum MethodArg {
    Type(Type),
    Optional(Type),
    Repeat(u8, Type),
}

impl MethodArg {
    /// The type that an argument given for this entry should have.
    #[verifier::allow_in_spec]
    pub fn arg_type(&self) -> Type
        returns
            (match *self {
                MethodArg::Type(t) => t,
                MethodArg::Optional(t) => t,
                MethodArg::Repeat(_, t) => t,
            }),
    {
        match *self {
            MethodArg::Type(t) => t,
            MethodArg::Optional(t) => t,
            MethodArg::Repeat(_, t) => t,
        }
    }
}

/// The name of a method or constructor of the runtime, the type of the
/// receiver, its parameter list and the type of its result.
pub struct MethodSignature {
    pub name: String,
    pub this_type: Type,
    pub input_types: Vec<MethodArg>,
    pub output_type: Type,
}

/// The mathematical value of a `MethodSignature`.
pub ghost struct MethodSignatureView {
    pub name: Seq<char>,
    pub this_type: Type,
    pub input_types: Seq<MethodArg>,
    pub output_type: Type,
}

impl View for MethodSignature {
    type V = MethodSignatureView;

    open spec fn view(&self) -> MethodSignatureView {
        MethodSignatureView {
            name: self.name@,
            this_type: self.this_type,
            input_types: self.input_types@,
            output_type: self.output_type,
        }
    }
}

impl MethodSignature {
    /// A signature from its four parts.
    pub fn new(name: &str, this_type: Type, input_types: Vec<MethodArg>, output_type: Type) -> (r:
        MethodSignature)
        ensures
            r@ == (MethodSignatureView {
                name: name@,
                this_type,
                input_types: input_types@,
                output_type,
            }),
    {
        MethodSignature { name: name.to_owned(), this_type, input_types, output_type }
    }

    /// Replaces the name.
    pub fn set_name(&mut self, name: &str)
        ensures
            final(self)@ == (MethodSignatureView { name: name@, ..old(self)@ }),
    {
        self.name = name.to_owned();
    }

    /// Records one more type that the method may return: the primitive types
    /// add up, the shape is replaced.
    pub fn set_output_type(&mut self, output_type: Type)
        ensures
            final(self)@ == (MethodSignatureView {
                output_type: Type {
                    ptype: old(self)@.output_type.ptype.union(output_type.ptype),
                    shape: output_type.shape,
                },
                ..old(self)@
            }),
    {
        self.output_type.ptype = self.output_type.ptype.union(output_type.ptype);
        self.output_type.shape = output_type.shape;
    }

    /// The number of entries in the parameter list. The number of arguments
    /// of a call may differ, since entries can be optional or repeated.
    pub fn min_args_count(&self) -> (r: usize)
        ensures
            r == self@.input_types.len(),
    {
        self.input_types.len()
    }

    /// The type of the result.
    pub fn output_type(&self) -> (r: Type)
        ensures
            r == self@.output_type,
    {
        self.output_type
    }

    /// The entry of the parameter list at `idx`.
    pub fn input_type_at(&self, idx: usize) -> (r: &MethodArg)
        requires
            idx < self@.input_types.len(),
        ensures
            *r == self@.input_types[idx as int],
    {
        &self.input_types[idx]
    }

    /// The parameter list.
    pub fn get_input_types(&self) -> (r: &Vec<MethodArg>)
        ensures
            r@ == self@.input_types,
    {
        &self.input_types
    }

    /// The name.
    pub fn get_name(&self) -> (r: &String)
        ensures
            r@ == self@.name,
    {
        &self.name
    }
}

impl Clone for MethodSignature {
    fn clone(&self) -> (r: MethodSignature)
        ensures
            r@ == self@,
    {
        let input_types = self.input_types.clone();
        assert(input_types@ =~= self.input_types@);
        MethodSignature {
            name: self.name.clone(),
            this_type: self.this_type,
            input_types,
            output_type: self.output_type,
        }
    }
}

/// How a builtin is brought into a program: by calling its constructor with
/// `new`, or, for a namespace such as `Math`, by naming it.
pub enum ConstructorType {
    Callable(MethodSignature),
    NonCallable(String, Type),
}

/// The mathematical value of a `ConstructorType`.
pub ghost enum ConstructorTypeView {
    Callable(MethodSignatureView),
    NonCallable(Seq<char>, Type),
}

impl View for ConstructorType {
    type V = ConstructorTypeView;

    open spec fn view(&self) -> ConstructorTypeView {
        match self {
            ConstructorType::Callable(ms) => ConstructorTypeView::Callable(ms@),
            ConstructorType::NonCallable(name, t) => ConstructorTypeView::NonCallable(name@, *t),
        }
    }
}

impl ConstructorTypeView {
    /// The type of the value that the constructor gives.
    pub open spec fn output_type(self) -> Type {
        match self {
            ConstructorTypeView::Callable(ms) => ms.output_type,
            ConstructorTypeView::NonCallable(_, t) => t,
        }
    }
}

impl ConstructorType {
    /// True for a constructor that is called with `new`.
    pub fn is_callable(&self) -> (r: bool)
        ensures
            r == (self@ is Callable),
    {
        match self {
            ConstructorType::Callable(_) => true,
            ConstructorType::NonCallable(_, _) => false,
        }
    }

    /// True for a namespace that is only named.
    pub fn is_non_callable(&self) -> (r: bool)
        ensures
            r == (self@ is NonCallable),
    {
        match self {
            ConstructorType::Callable(_) => false,
            ConstructorType::NonCallable(_, _) => true,
        }
    }
}

impl Clone for ConstructorType {
    fn clone(&self) -> (r: ConstructorType)
        ensures
            r@ == self@,
    {
        match self {
            ConstructorType::Callable(ms) => ConstructorType::Callable(ms.clone()),
            ConstructorType::NonCallable(name, t) => ConstructorType::NonCallable(
                name.clone(),
                *t,
            ),
        }
    }
}

} // verus!

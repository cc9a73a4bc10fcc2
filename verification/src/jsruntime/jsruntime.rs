//! The catalogue of builtins, and the lookup of methods and properties by
//! shape.

use vstd::prelude::*;
use super::jsbuiltin::{
    constructors_view,
    signatures_view,
    JSBuiltin,
    JSBuiltinView,
};
use crate::ir::codeanalysis::types::{
    ConstructorType,
    ConstructorTypeView,
    MethodArg,
    MethodSignature,
    MethodSignatureView,
    Shape,
    Type,
    SHAPE_OBJECT,
    SHAPE_STATIC,
};
use crate::ir::operation::texts;

verus! {

/// The shape by which methods are looked up for a variable of shape
/// `shape`: the static flag is dropped, and so is the object bit unless
/// the shape is that of a plain object.
pub open spec fn method_query(shape: Shape) -> Shape {
    let instance = Shape { bits: shape.bits & !SHAPE_STATIC };
    if instance.is_pure_object() {
        instance
    } else {
        Shape { bits: instance.bits & !SHAPE_OBJECT }
    }
}

/// Tells whether a builtin has methods for the query: its shape contains
/// the query, where the object bit of a builtin that is more than a plain
/// object does not count towards a query for the object bit.
pub open spec fn has_methods_for(builtin: Shape, query: Shape) -> bool {
    let candidate = if query.contains(Shape::object()) && !builtin.is_pure_object() {
        Shape { bits: builtin.bits & !SHAPE_OBJECT }
    } else {
        builtin
    };
    candidate.contains(query)
}

/// The method list of a builtin that a query is answered from: that of the
/// constructor object for a static shape, that of the instances otherwise.
pub open spec fn method_list(builtin: JSBuiltinView, is_static: bool) -> Option<
    Seq<MethodSignatureView>,
> {
    if is_static {
        builtin.static_methods
    } else {
        builtin.methods
    }
}

/// The methods that the first `n` builtins have for a query, in the order
/// of the builtins, and whether one of them matched. There is no answer if
/// a builtin that matches has no list of the kind asked for.
pub open spec fn methods_among(
    builtins: Seq<JSBuiltinView>,
    query: Shape,
    is_static: bool,
    n: int,
) -> Option<(bool, Seq<MethodSignatureView>)>
    decreases n,
{
    if n <= 0 {
        Some((false, Seq::empty()))
    } else {
        match methods_among(builtins, query, is_static, n - 1) {
            None => None,
            Some((found, list)) => {
                let b = builtins[n - 1];
                if has_methods_for(b.shape, query) {
                    match method_list(b, is_static) {
                        None => None,
                        Some(more) => Some((true, list + more)),
                    }
                } else {
                    Some((found, list))
                }
            },
        }
    }
}

/// The properties that the first `n` builtins have for a shape, in the
/// order of the builtins, and whether one of them matched.
pub open spec fn properties_among(builtins: Seq<JSBuiltinView>, shape: Shape, n: int) -> (
    bool,
    Seq<Seq<char>>,
)
    decreases n,
{
    if n <= 0 {
        (false, Seq::empty())
    } else {
        let (found, list) = properties_among(builtins, shape, n - 1);
        let b = builtins[n - 1];
        if b.shape.contains(shape) {
            (true, list + b.properties)
        } else {
            (found, list)
        }
    }
}

/// The constructors of the first `n` builtins, in the order of the
/// builtins.
pub open spec fn constructors_among(builtins: Seq<JSBuiltinView>, n: int) -> Seq<
    ConstructorTypeView,
>
    decreases n,
{
    if n <= 0 {
        Seq::empty()
    } else {
        constructors_among(builtins, n - 1) + builtins[n - 1].constructor
    }
}

/// The mathematical value of a `JSRuntime`.
pub ghost struct JSRuntimeView {
    pub builtins: Seq<JSBuiltinView>,
    pub constructors: Seq<ConstructorTypeView>,
}

impl JSRuntimeView {
    /// The methods that can be called on a variable of the given shape.
    pub open spec fn methods(self, shape: Shape) -> Option<Seq<MethodSignatureView>> {
        match methods_among(
            self.builtins,
            method_query(shape),
            shape.is_static(),
            self.builtins.len() as int,
        ) {
            Some((true, list)) => Some(list),
            _ => None,
        }
    }

    /// The properties that a variable of the given shape may have.
    pub open spec fn properties(self, shape: Shape) -> Option<Seq<Seq<char>>> {
        let (found, list) = properties_among(self.builtins, shape, self.builtins.len() as int);
        if found {
            Some(list)
        } else {
            None
        }
    }
}

/// A method signature from its four parts.
pub open spec fn signature(
    name: Seq<char>,
    this_type: Type,
    input_types: Seq<MethodArg>,
    output_type: Type,
) -> MethodSignatureView {
    MethodSignatureView { name, this_type, input_types, output_type }
}

fn one(a: MethodArg) -> (r: Vec<MethodArg>)
    ensures
        r@ == seq![a],
{
    let mut r: Vec<MethodArg> = Vec::new();
    r.push(a);
    assert(r@ =~= seq![a]);
    r
}

fn two(a: MethodArg, b: MethodArg) -> (r: Vec<MethodArg>)
    ensures
        r@ == seq![a, b],
{
    let mut r: Vec<MethodArg> = Vec::new();
    r.push(a);
    r.push(b);
    assert(r@ =~= seq![a, b]);
    r
}

fn three(a: MethodArg, b: MethodArg, c: MethodArg) -> (r: Vec<MethodArg>)
    ensures
        r@ == seq![a, b, c],
{
    let mut r: Vec<MethodArg> = Vec::new();
    r.push(a);
    r.push(b);
    r.push(c);
    assert(r@ =~= seq![a, b, c]);
    r
}

/// The instance methods of the `Array` builtin.
pub open spec fn array_methods() -> Seq<MethodSignatureView> {
    let integer = Type::int_type();
    let string = Type::string_type();
    let boolean = Type::bool_type();
    let undefined = Type::undefined_type();
    let any = Type::any_type();
    let array = Type::array_type();
    seq![
        signature("push"@, array, seq![MethodArg::Type(any)], integer),
        signature("pop"@, array, seq![], any),
        signature("shift"@, array, seq![], any),
        signature("sort"@, array, seq![], array),
        signature("join"@, array, seq![], string),
        signature("concat"@, array, seq![MethodArg::Repeat(10, any)], array),
        signature("unshift"@, array, seq![MethodArg::Repeat(10, any)], integer),
        signature(
            "fill"@,
            array,
            seq![MethodArg::Type(integer), MethodArg::Repeat(2, integer)],
            array,
        ),
        signature("lastIndexOf"@, array, seq![MethodArg::Type(any)], any),
        signature("includes"@, array, seq![MethodArg::Type(any)], boolean),
        signature(
            "slice"@,
            array,
            seq![MethodArg::Type(integer), MethodArg::Optional(integer)],
            array,
        ),
        signature(
            "copyWithin"@,
            array,
            seq![MethodArg::Type(integer), MethodArg::Repeat(2, integer)],
            array,
        ),
        signature(
            "splice"@,
            array,
            seq![MethodArg::Type(integer), MethodArg::Optional(integer), MethodArg::Repeat(10, any)],
            undefined,
        ),
    ]
}

fn build_array_methods() -> (r: Vec<MethodSignature>)
    ensures
        signatures_view(r@) == array_methods(),
{
    let integer = Type::int_type();
    let string = Type::string_type();
    let boolean = Type::bool_type();
    let undefined = Type::undefined_type();
    let any = Type::any_type();
    let array = Type::array_type();
    let mut r: Vec<MethodSignature> = Vec::new();
    r.push(MethodSignature::new("push", array, one(MethodArg::Type(any)), integer));
    r.push(MethodSignature::new("pop", array, Vec::new(), any));
    r.push(MethodSignature::new("shift", array, Vec::new(), any));
    r.push(MethodSignature::new("sort", array, Vec::new(), array));
    r.push(MethodSignature::new("join", array, Vec::new(), string));
    r.push(MethodSignature::new("concat", array, one(MethodArg::Repeat(10, any)), array));
    r.push(MethodSignature::new("unshift", array, one(MethodArg::Repeat(10, any)), integer));
    r.push(
        MethodSignature::new(
            "fill",
            array,
            two(MethodArg::Type(integer), MethodArg::Repeat(2, integer)),
            array,
        ),
    );
    r.push(MethodSignature::new("lastIndexOf", array, one(MethodArg::Type(any)), any));
    r.push(MethodSignature::new("includes", array, one(MethodArg::Type(any)), boolean));
    r.push(
        MethodSignature::new(
            "slice",
            array,
            two(MethodArg::Type(integer), MethodArg::Optional(integer)),
            array,
        ),
    );
    r.push(
        MethodSignature::new(
            "copyWithin",
            array,
            two(MethodArg::Type(integer), MethodArg::Repeat(2, integer)),
            array,
        ),
    );
    r.push(
        MethodSignature::new(
            "splice",
            array,
            three(MethodArg::Type(integer), MethodArg::Optional(integer), MethodArg::Repeat(10, any)),
            undefined,
        ),
    );
    assert(signatures_view(r@) =~~= array_methods());
    r
}

/// The static methods of the `Array` builtin.
pub open spec fn array_statics() -> Seq<MethodSignatureView> {
    let string = Type::string_type();
    let boolean = Type::bool_type();
    let any = Type::any_type();
    let array = Type::array_type();
    seq![
        signature("from"@, array, seq![MethodArg::Type(array.union(string))], array),
        signature("from"@, array, seq![MethodArg::Type(any)], boolean),
        signature("of"@, array, seq![MethodArg::Repeat(100, any)], array),
    ]
}

fn build_array_statics() -> (r: Vec<MethodSignature>)
    ensures
        signatures_view(r@) == array_statics(),
{
    let string = Type::string_type();
    let boolean = Type::bool_type();
    let any = Type::any_type();
    let array = Type::array_type();
    let mut r: Vec<MethodSignature> = Vec::new();
    r.push(MethodSignature::new("from", array, one(MethodArg::Type(array.union(string))), array));
    r.push(MethodSignature::new("from", array, one(MethodArg::Type(any)), boolean));
    r.push(MethodSignature::new("of", array, one(MethodArg::Repeat(100, any)), array));
    assert(signatures_view(r@) =~~= array_statics());
    r
}

/// The `Array` builtin.
pub open spec fn array_builtin() -> JSBuiltinView {
    let integer = Type::int_type();
    let array = Type::array_type();
    let static_array = Type::obj(Shape::array().union(Shape::statik()));
    JSBuiltinView {
        shape: Shape::array(),
        constructor: seq![
            ConstructorTypeView::Callable(
                signature("Array"@, array, seq![MethodArg::Type(integer)], array),
            ),
            ConstructorTypeView::NonCallable("Array"@, static_array),
        ],
        properties: seq!["length"@],
        methods: Some(array_methods()),
        static_methods: Some(array_statics()),
    }
}

/// The static methods of the `Math` builtin.
pub open spec fn math_statics() -> Seq<MethodSignatureView> {
    let float = Type::float_type();
    let math = Type::obj(Shape::math().union(Shape::statik()));
    let numeric = Type::int_type().union(Type::float_type());
    seq![
        signature("random"@, math, seq![], float),
        signature("abs"@, math, seq![MethodArg::Type(numeric)], float),
        signature("acos"@, math, seq![MethodArg::Type(numeric)], float),
        signature("asin"@, math, seq![MethodArg::Type(numeric)], float),
        signature("asinh"@, math, seq![MethodArg::Type(numeric)], float),
        signature("asinh"@, math, seq![MethodArg::Type(numeric)], float),
        signature("atan"@, math, seq![MethodArg::Type(numeric)], float),
        signature("atanh"@, math, seq![MethodArg::Type(numeric)], float),
        signature("atan2"@, math, seq![MethodArg::Type(numeric)], float),
        signature("cbrt"@, math, seq![MethodArg::Type(numeric)], float),
        signature("ceil"@, math, seq![MethodArg::Type(numeric)], float),
        signature("clz32"@, math, seq![MethodArg::Type(numeric)], float),
        signature("cos"@, math, seq![MethodArg::Type(numeric)], float),
        signature("cosh"@, math, seq![MethodArg::Type(numeric)], float),
        signature("exp"@, math, seq![MethodArg::Type(numeric)], float),
        signature("expm1"@, math, seq![MethodArg::Type(numeric)], float),
        signature("floor"@, math, seq![MethodArg::Type(numeric)], float),
        signature("fround"@, math, seq![MethodArg::Type(numeric)], float),
        signature("log"@, math, seq![MethodArg::Type(numeric)], float),
        signature("log1p"@, math, seq![MethodArg::Type(numeric)], float),
        signature("log10"@, math, seq![MethodArg::Type(numeric)], float),
        signature("log2"@, math, seq![MethodArg::Type(numeric)], float),
        signature("round"@, math, seq![MethodArg::Type(numeric)], float),
        signature("sign"@, math, seq![MethodArg::Type(numeric)], float),
        signature("sin"@, math, seq![MethodArg::Type(numeric)], float),
        signature("sinh"@, math, seq![MethodArg::Type(numeric)], float),
        signature("sqrt"@, math, seq![MethodArg::Type(numeric)], float),
        signature("tan"@, math, seq![MethodArg::Type(numeric)], float),
        signature("tanh"@, math, seq![MethodArg::Type(numeric)], float),
        signature("trunc"@, math, seq![MethodArg::Type(numeric)], float),
        signature("pow"@, math, seq![MethodArg::Type(numeric), MethodArg::Type(numeric)], float),
        signature("imul"@, math, seq![MethodArg::Type(numeric), MethodArg::Type(numeric)], float),
        signature(
            "max"@,
            math,
            seq![MethodArg::Type(numeric), MethodArg::Repeat(4, numeric)],
            float,
        ),
        signature(
            "min"@,
            math,
            seq![MethodArg::Type(numeric), MethodArg::Repeat(4, numeric)],
            float,
        ),
        signature(
            "hypot"@,
            math,
            seq![MethodArg::Type(numeric), MethodArg::Repeat(4, numeric)],
            float,
        ),
    ]
}

fn build_math_statics() -> (r: Vec<MethodSignature>)
    ensures
        signatures_view(r@) == math_statics(),
{
    let float = Type::float_type();
    let math = Type::obj(Shape::math().union(Shape::statik()));
    let numeric = Type::int_type().union(Type::float_type());
    let mut r: Vec<MethodSignature> = Vec::new();
    r.push(MethodSignature::new("random", math, Vec::new(), float));
    r.push(MethodSignature::new("abs", math, one(MethodArg::Type(numeric)), float));
    r.push(MethodSignature::new("acos", math, one(MethodArg::Type(numeric)), float));
    r.push(MethodSignature::new("asin", math, one(MethodArg::Type(numeric)), float));
    r.push(MethodSignature::new("asinh", math, one(MethodArg::Type(numeric)), float));
    r.push(MethodSignature::new("asinh", math, one(MethodArg::Type(numeric)), float));
    r.push(MethodSignature::new("atan", math, one(MethodArg::Type(numeric)), float));
    r.push(MethodSignature::new("atanh", math, one(MethodArg::Type(numeric)), float));
    r.push(MethodSignature::new("atan2", math, one(MethodArg::Type(numeric)), float));
    r.push(MethodSignature::new("cbrt", math, one(MethodArg::Type(numeric)), float));
    r.push(MethodSignature::new("ceil", math, one(MethodArg::Type(numeric)), float));
    r.push(MethodSignature::new("clz32", math, one(MethodArg::Type(numeric)), float));
    r.push(MethodSignature::new("cos", math, one(MethodArg::Type(numeric)), float));
    r.push(MethodSignature::new("cosh", math, one(MethodArg::Type(numeric)), float));
    r.push(MethodSignature::new("exp", math, one(MethodArg::Type(numeric)), float));
    r.push(MethodSignature::new("expm1", math, one(MethodArg::Type(numeric)), float));
    r.push(MethodSignature::new("floor", math, one(MethodArg::Type(numeric)), float));
    r.push(MethodSignature::new("fround", math, one(MethodArg::Type(numeric)), float));
    r.push(MethodSignature::new("log", math, one(MethodArg::Type(numeric)), float));
    r.push(MethodSignature::new("log1p", math, one(MethodArg::Type(numeric)), float));
    r.push(MethodSignature::new("log10", math, one(MethodArg::Type(numeric)), float));
    r.push(MethodSignature::new("log2", math, one(MethodArg::Type(numeric)), float));
    r.push(MethodSignature::new("round", math, one(MethodArg::Type(numeric)), float));
    r.push(MethodSignature::new("sign", math, one(MethodArg::Type(numeric)), float));
    r.push(MethodSignature::new("sin", math, one(MethodArg::Type(numeric)), float));
    r.push(MethodSignature::new("sinh", math, one(MethodArg::Type(numeric)), float));
    r.push(MethodSignature::new("sqrt", math, one(MethodArg::Type(numeric)), float));
    r.push(MethodSignature::new("tan", math, one(MethodArg::Type(numeric)), float));
    r.push(MethodSignature::new("tanh", math, one(MethodArg::Type(numeric)), float));
    r.push(MethodSignature::new("trunc", math, one(MethodArg::Type(numeric)), float));
    r.push(
        MethodSignature::new(
            "pow",
            math,
            two(MethodArg::Type(numeric), MethodArg::Type(numeric)),
            float,
        ),
    );
    r.push(
        MethodSignature::new(
            "imul",
            math,
            two(MethodArg::Type(numeric), MethodArg::Type(numeric)),
            float,
        ),
    );
    r.push(
        MethodSignature::new(
            "max",
            math,
            two(MethodArg::Type(numeric), MethodArg::Repeat(4, numeric)),
            float,
        ),
    );
    r.push(
        MethodSignature::new(
            "min",
            math,
            two(MethodArg::Type(numeric), MethodArg::Repeat(4, numeric)),
            float,
        ),
    );
    r.push(
        MethodSignature::new(
            "hypot",
            math,
            two(MethodArg::Type(numeric), MethodArg::Repeat(4, numeric)),
            float,
        ),
    );
    assert(signatures_view(r@) =~~= math_statics());
    r
}

/// The `Math` builtin.
pub open spec fn math_builtin() -> JSBuiltinView {
    let math = Type::obj(Shape::math().union(Shape::statik()));
    JSBuiltinView {
        shape: Shape::math(),
        constructor: seq![
            ConstructorTypeView::NonCallable("Math"@, math),
        ],
        properties: seq!["E"@, "LN2"@, "LN10"@, "LOG2E"@, "LOG10E"@, "PI"@, "SQRT_2"@, "SQRT2"@],
        methods: None,
        static_methods: Some(math_statics()),
    }
}

/// The instance methods of the `String` builtin.
pub open spec fn string_methods() -> Seq<MethodSignatureView> {
    let integer = Type::int_type();
    let string = Type::string_type();
    let boolean = Type::bool_type();
    let object = Type::object_type();
    let array = Type::array_type();
    seq![
        signature("at"@, string, seq![MethodArg::Type(integer)], string),
        signature("charAt"@, string, seq![MethodArg::Type(integer)], string),
        signature("charCodeAt"@, string, seq![MethodArg::Type(integer)], integer),
        signature("codePointAt"@, string, seq![MethodArg::Type(integer)], integer),
        signature("codePointAt"@, string, seq![MethodArg::Type(integer)], integer),
        signature("concat"@, string, seq![MethodArg::Repeat(20, string)], string),
        signature(
            "includes"@,
            string,
            seq![MethodArg::Type(string), MethodArg::Optional(integer)],
            boolean,
        ),
        signature(
            "endsWith"@,
            string,
            seq![MethodArg::Type(string), MethodArg::Optional(integer)],
            boolean,
        ),
        signature(
            "startsWith"@,
            string,
            seq![MethodArg::Type(string), MethodArg::Optional(integer)],
            boolean,
        ),
        signature(
            "indexOf"@,
            string,
            seq![MethodArg::Type(string), MethodArg::Optional(integer)],
            integer,
        ),
        signature(
            "indexOf"@,
            string,
            seq![MethodArg::Type(string), MethodArg::Optional(integer)],
            integer,
        ),
        signature(
            "lastIndexOf"@,
            string,
            seq![MethodArg::Type(string), MethodArg::Optional(integer)],
            integer,
        ),
        signature(
            "localeCompare"@,
            string,
            seq![MethodArg::Type(string), MethodArg::Optional(string), MethodArg::Optional(object)],
            integer,
        ),
        signature(
            "padEnd"@,
            string,
            seq![MethodArg::Type(integer), MethodArg::Optional(string)],
            string,
        ),
        signature(
            "padStart"@,
            string,
            seq![MethodArg::Type(integer), MethodArg::Optional(string)],
            integer,
        ),
        signature("repeat"@, string, seq![MethodArg::Type(integer)], string),
        signature(
            "replace"@,
            string,
            seq![MethodArg::Type(string), MethodArg::Type(string)],
            string,
        ),
        signature(
            "replaceAll"@,
            string,
            seq![MethodArg::Type(string), MethodArg::Type(string)],
            string,
        ),
        signature(
            "slice"@,
            string,
            seq![MethodArg::Type(integer), MethodArg::Optional(integer)],
            boolean,
        ),
        signature(
            "split"@,
            string,
            seq![MethodArg::Optional(string), MethodArg::Optional(integer)],
            array,
        ),
        signature(
            "substring"@,
            string,
            seq![MethodArg::Optional(integer), MethodArg::Optional(integer)],
            string,
        ),
        signature("toLowerCase"@, string, seq![], string),
        signature("toUpperCase"@, string, seq![], string),
        signature("trim"@, string, seq![], string),
        signature("toString"@, string, seq![], string),
        signature("trimStart"@, string, seq![], string),
        signature("trimEnd"@, string, seq![], string),
        signature("valueOf"@, string, seq![], string),
    ]
}

fn build_string_methods() -> (r: Vec<MethodSignature>)
    ensures
        signatures_view(r@) == string_methods(),
{
    let integer = Type::int_type();
    let string = Type::string_type();
    let boolean = Type::bool_type();
    let object = Type::object_type();
    let array = Type::array_type();
    let mut r: Vec<MethodSignature> = Vec::new();
    r.push(MethodSignature::new("at", string, one(MethodArg::Type(integer)), string));
    r.push(MethodSignature::new("charAt", string, one(MethodArg::Type(integer)), string));
    r.push(MethodSignature::new("charCodeAt", string, one(MethodArg::Type(integer)), integer));
    r.push(MethodSignature::new("codePointAt", string, one(MethodArg::Type(integer)), integer));
    r.push(MethodSignature::new("codePointAt", string, one(MethodArg::Type(integer)), integer));
    r.push(MethodSignature::new("concat", string, one(MethodArg::Repeat(20, string)), string));
    r.push(
        MethodSignature::new(
            "includes",
            string,
            two(MethodArg::Type(string), MethodArg::Optional(integer)),
            boolean,
        ),
    );
    r.push(
        MethodSignature::new(
            "endsWith",
            string,
            two(MethodArg::Type(string), MethodArg::Optional(integer)),
            boolean,
        ),
    );
    r.push(
        MethodSignature::new(
            "startsWith",
            string,
            two(MethodArg::Type(string), MethodArg::Optional(integer)),
            boolean,
        ),
    );
    r.push(
        MethodSignature::new(
            "indexOf",
            string,
            two(MethodArg::Type(string), MethodArg::Optional(integer)),
            integer,
        ),
    );
    r.push(
        MethodSignature::new(
            "indexOf",
            string,
            two(MethodArg::Type(string), MethodArg::Optional(integer)),
            integer,
        ),
    );
    r.push(
        MethodSignature::new(
            "lastIndexOf",
            string,
            two(MethodArg::Type(string), MethodArg::Optional(integer)),
            integer,
        ),
    );
    r.push(
        MethodSignature::new(
            "localeCompare",
            string,
            three(MethodArg::Type(string), MethodArg::Optional(string), MethodArg::Optional(object)),
            integer,
        ),
    );
    r.push(
        MethodSignature::new(
            "padEnd",
            string,
            two(MethodArg::Type(integer), MethodArg::Optional(string)),
            string,
        ),
    );
    r.push(
        MethodSignature::new(
            "padStart",
            string,
            two(MethodArg::Type(integer), MethodArg::Optional(string)),
            integer,
        ),
    );
    r.push(MethodSignature::new("repeat", string, one(MethodArg::Type(integer)), string));
    r.push(
        MethodSignature::new(
            "replace",
            string,
            two(MethodArg::Type(string), MethodArg::Type(string)),
            string,
        ),
    );
    r.push(
        MethodSignature::new(
            "replaceAll",
            string,
            two(MethodArg::Type(string), MethodArg::Type(string)),
            string,
        ),
    );
    r.push(
        MethodSignature::new(
            "slice",
            string,
            two(MethodArg::Type(integer), MethodArg::Optional(integer)),
            boolean,
        ),
    );
    r.push(
        MethodSignature::new(
            "split",
            string,
            two(MethodArg::Optional(string), MethodArg::Optional(integer)),
            array,
        ),
    );
    r.push(
        MethodSignature::new(
            "substring",
            string,
            two(MethodArg::Optional(integer), MethodArg::Optional(integer)),
            string,
        ),
    );
    r.push(MethodSignature::new("toLowerCase", string, Vec::new(), string));
    r.push(MethodSignature::new("toUpperCase", string, Vec::new(), string));
    r.push(MethodSignature::new("trim", string, Vec::new(), string));
    r.push(MethodSignature::new("toString", string, Vec::new(), string));
    r.push(MethodSignature::new("trimStart", string, Vec::new(), string));
    r.push(MethodSignature::new("trimEnd", string, Vec::new(), string));
    r.push(MethodSignature::new("valueOf", string, Vec::new(), string));
    assert(signatures_view(r@) =~~= string_methods());
    r
}

/// The static methods of the `String` builtin.
pub open spec fn string_statics() -> Seq<MethodSignatureView> {
    let integer = Type::int_type();
    let string = Type::string_type();
    let static_string = Type::obj(Shape::string().union(Shape::statik()));
    seq![
        signature("fromCharCode"@, static_string, seq![MethodArg::Repeat(20, integer)], string),
        signature("fromCodePoint"@, static_string, seq![MethodArg::Repeat(20, integer)], string),
    ]
}

fn build_string_statics() -> (r: Vec<MethodSignature>)
    ensures
        signatures_view(r@) == string_statics(),
{
    let integer = Type::int_type();
    let string = Type::string_type();
    let static_string = Type::obj(Shape::string().union(Shape::statik()));
    let mut r: Vec<MethodSignature> = Vec::new();
    r.push(
        MethodSignature::new(
            "fromCharCode",
            static_string,
            one(MethodArg::Repeat(20, integer)),
            string,
        ),
    );
    r.push(
        MethodSignature::new(
            "fromCodePoint",
            static_string,
            one(MethodArg::Repeat(20, integer)),
            string,
        ),
    );
    assert(signatures_view(r@) =~~= string_statics());
    r
}

/// The `String` builtin.
pub open spec fn string_builtin() -> JSBuiltinView {
    let string = Type::string_type();
    let static_string = Type::obj(Shape::string().union(Shape::statik()));
    JSBuiltinView {
        shape: Shape::string(),
        constructor: seq![
            ConstructorTypeView::Callable(signature("String"@, string, seq![], string)),
            ConstructorTypeView::NonCallable("String"@, static_string),
        ],
        properties: seq!["length"@],
        methods: Some(string_methods()),
        static_methods: Some(string_statics()),
    }
}

/// The static methods of the `Object` builtin.
pub open spec fn object_statics() -> Seq<MethodSignatureView> {
    let string = Type::string_type();
    let boolean = Type::bool_type();
    let undefined = Type::undefined_type();
    let object = Type::object_type();
    let any = Type::any_type();
    let array = Type::array_type();
    let static_obj = Type::obj(Shape::object().union(Shape::statik()));
    seq![
        signature(
            "assign"@,
            static_obj,
            seq![MethodArg::Type(object), MethodArg::Optional(object)],
            object,
        ),
        signature("create"@, static_obj, seq![MethodArg::Type(object)], object),
        signature(
            "defineProperty"@,
            static_obj,
            seq![MethodArg::Type(object), MethodArg::Type(string), MethodArg::Type(object)],
            object,
        ),
        signature("freeze"@, static_obj, seq![MethodArg::Type(object)], undefined),
        signature(
            "getOwnPropertyDescriptor"@,
            static_obj,
            seq![MethodArg::Type(object), MethodArg::Type(string)],
            object,
        ),
        signature("getOwnPropertyDescriptors"@, static_obj, seq![MethodArg::Type(object)], object),
        signature("getOwnPropertyNames"@, static_obj, seq![MethodArg::Type(object)], array),
        signature("getOwnPropertySymbols"@, static_obj, seq![MethodArg::Type(object)], array),
        signature("getPrototypeOf"@, static_obj, seq![MethodArg::Type(object)], object),
        signature("is"@, static_obj, seq![MethodArg::Type(any)], boolean),
        signature("isExtensible"@, static_obj, seq![MethodArg::Type(any)], boolean),
        signature("isFrozen"@, static_obj, seq![MethodArg::Type(any)], boolean),
        signature("isSealed"@, static_obj, seq![MethodArg::Type(any)], boolean),
        signature("keys"@, static_obj, seq![MethodArg::Type(object)], array),
        signature("preventExtensions"@, static_obj, seq![MethodArg::Type(object)], object),
        signature("seal"@, static_obj, seq![MethodArg::Type(object)], object),
        signature(
            "setPrototypeOf"@,
            static_obj,
            seq![MethodArg::Type(object), MethodArg::Type(object)],
            object,
        ),
        signature(
            "setPrototypeOf"@,
            static_obj,
            seq![MethodArg::Type(object), MethodArg::Type(object)],
            object,
        ),
        signature("values"@, static_obj, seq![MethodArg::Type(object)], string),
    ]
}

fn build_object_statics() -> (r: Vec<MethodSignature>)
    ensures
        signatures_view(r@) == object_statics(),
{
    let string = Type::string_type();
    let boolean = Type::bool_type();
    let undefined = Type::undefined_type();
    let object = Type::object_type();
    let any = Type::any_type();
    let array = Type::array_type();
    let static_obj = Type::obj(Shape::object().union(Shape::statik()));
    let mut r: Vec<MethodSignature> = Vec::new();
    r.push(
        MethodSignature::new(
            "assign",
            static_obj,
            two(MethodArg::Type(object), MethodArg::Optional(object)),
            object,
        ),
    );
    r.push(MethodSignature::new("create", static_obj, one(MethodArg::Type(object)), object));
    r.push(
        MethodSignature::new(
            "defineProperty",
            static_obj,
            three(MethodArg::Type(object), MethodArg::Type(string), MethodArg::Type(object)),
            object,
        ),
    );
    r.push(MethodSignature::new("freeze", static_obj, one(MethodArg::Type(object)), undefined));
    r.push(
        MethodSignature::new(
            "getOwnPropertyDescriptor",
            static_obj,
            two(MethodArg::Type(object), MethodArg::Type(string)),
            object,
        ),
    );
    r.push(
        MethodSignature::new(
            "getOwnPropertyDescriptors",
            static_obj,
            one(MethodArg::Type(object)),
            object,
        ),
    );
    r.push(
        MethodSignature::new(
            "getOwnPropertyNames",
            static_obj,
            one(MethodArg::Type(object)),
            array,
        ),
    );
    r.push(
        MethodSignature::new(
            "getOwnPropertySymbols",
            static_obj,
            one(MethodArg::Type(object)),
            array,
        ),
    );
    r.push(
        MethodSignature::new(
            "getPrototypeOf",
            static_obj,
            one(MethodArg::Type(object)),
            object,
        ),
    );
    r.push(MethodSignature::new("is", static_obj, one(MethodArg::Type(any)), boolean));
    r.push(MethodSignature::new("isExtensible", static_obj, one(MethodArg::Type(any)), boolean));
    r.push(MethodSignature::new("isFrozen", static_obj, one(MethodArg::Type(any)), boolean));
    r.push(MethodSignature::new("isSealed", static_obj, one(MethodArg::Type(any)), boolean));
    r.push(MethodSignature::new("keys", static_obj, one(MethodArg::Type(object)), array));
    r.push(
        MethodSignature::new(
            "preventExtensions",
            static_obj,
            one(MethodArg::Type(object)),
            object,
        ),
    );
    r.push(MethodSignature::new("seal", static_obj, one(MethodArg::Type(object)), object));
    r.push(
        MethodSignature::new(
            "setPrototypeOf",
            static_obj,
            two(MethodArg::Type(object), MethodArg::Type(object)),
            object,
        ),
    );
    r.push(
        MethodSignature::new(
            "setPrototypeOf",
            static_obj,
            two(MethodArg::Type(object), MethodArg::Type(object)),
            object,
        ),
    );
    r.push(MethodSignature::new("values", static_obj, one(MethodArg::Type(object)), string));
    assert(signatures_view(r@) =~~= object_statics());
    r
}

/// The `Object` builtin.
pub open spec fn object_builtin() -> JSBuiltinView {
    let object = Type::object_type();
    let static_obj = Type::obj(Shape::object().union(Shape::statik()));
    JSBuiltinView {
        shape: Shape::object(),
        constructor: seq![
            ConstructorTypeView::Callable(signature("Object"@, object, seq![], object)),
            ConstructorTypeView::NonCallable("Object"@, static_obj),
        ],
        properties: seq!["constructor"@, "__proto__"@],
        methods: None,
        static_methods: Some(object_statics()),
    }
}

/// The instance methods of the `ArrayBuffer` builtin.
pub open spec fn arraybuffer_methods() -> Seq<MethodSignatureView> {
    let integer = Type::int_type();
    let arraybuf = Type::obj(Shape::array_buffer());
    seq![
        signature(
            "slice"@,
            arraybuf,
            seq![MethodArg::Type(integer), MethodArg::Optional(integer)],
            arraybuf,
        ),
    ]
}

fn build_arraybuffer_methods() -> (r: Vec<MethodSignature>)
    ensures
        signatures_view(r@) == arraybuffer_methods(),
{
    let integer = Type::int_type();
    let arraybuf = Type::obj(Shape::array_buffer());
    let mut r: Vec<MethodSignature> = Vec::new();
    r.push(
        MethodSignature::new(
            "slice",
            arraybuf,
            two(MethodArg::Type(integer), MethodArg::Optional(integer)),
            arraybuf,
        ),
    );
    assert(signatures_view(r@) =~~= arraybuffer_methods());
    r
}

/// The static methods of the `ArrayBuffer` builtin.
pub open spec fn arraybuffer_statics() -> Seq<MethodSignatureView> {
    let boolean = Type::bool_type();
    let any = Type::any_type();
    let arraybuf_static = Type::obj(Shape::array_buffer().union(Shape::statik()));
    seq![
        signature("isView"@, arraybuf_static, seq![MethodArg::Type(any)], boolean),
    ]
}

fn build_arraybuffer_statics() -> (r: Vec<MethodSignature>)
    ensures
        signatures_view(r@) == arraybuffer_statics(),
{
    let boolean = Type::bool_type();
    let any = Type::any_type();
    let arraybuf_static = Type::obj(Shape::array_buffer().union(Shape::statik()));
    let mut r: Vec<MethodSignature> = Vec::new();
    r.push(MethodSignature::new("isView", arraybuf_static, one(MethodArg::Type(any)), boolean));
    assert(signatures_view(r@) =~~= arraybuffer_statics());
    r
}

/// The `ArrayBuffer` builtin.
pub open spec fn arraybuffer_builtin() -> JSBuiltinView {
    let integer = Type::int_type();
    let arraybuf = Type::obj(Shape::array_buffer());
    let arraybuf_static = Type::obj(Shape::array_buffer().union(Shape::statik()));
    JSBuiltinView {
        shape: Shape::array_buffer(),
        constructor: seq![
            ConstructorTypeView::Callable(
                signature("ArrayBuffer"@, arraybuf, seq![MethodArg::Type(integer)], arraybuf),
            ),
            ConstructorTypeView::NonCallable("ArrayBuffer"@, arraybuf_static),
        ],
        properties: seq!["byteLength"@],
        methods: Some(arraybuffer_methods()),
        static_methods: Some(arraybuffer_statics()),
    }
}

/// The instance methods of the typed array builtin.
pub open spec fn typedarray_methods() -> Seq<MethodSignatureView> {
    let integer = Type::int_type();
    let float = Type::float_type();
    let string = Type::string_type();
    let boolean = Type::bool_type();
    let undefined = Type::undefined_type();
    let array = Type::array_type();
    let typed_array = Type::obj(Shape::typed_array());
    seq![
        signature("at"@, typed_array, seq![MethodArg::Type(integer)], integer.union(float)),
        signature(
            "copyWithin"@,
            typed_array,
            seq![MethodArg::Type(integer), MethodArg::Optional(integer), MethodArg::Optional(integer)],
            typed_array,
        ),
        signature(
            "copyWithin"@,
            typed_array,
            seq![MethodArg::Type(integer), MethodArg::Optional(integer), MethodArg::Optional(integer)],
            typed_array,
        ),
        signature(
            "fill"@,
            typed_array,
            seq![MethodArg::Type(integer.union(float)), MethodArg::Optional(integer), MethodArg::Optional(integer)],
            typed_array,
        ),
        signature(
            "includes"@,
            typed_array,
            seq![MethodArg::Type(integer.union(float)), MethodArg::Optional(integer)],
            boolean,
        ),
        signature(
            "indexOf"@,
            typed_array,
            seq![MethodArg::Type(integer.union(float)), MethodArg::Optional(integer)],
            integer,
        ),
        signature("join"@, typed_array, seq![], string),
        signature(
            "lastIndexOf"@,
            typed_array,
            seq![MethodArg::Type(integer.union(float)), MethodArg::Optional(integer)],
            integer,
        ),
        signature("reverse"@, typed_array, seq![], integer),
        signature(
            "set"@,
            typed_array,
            seq![MethodArg::Type(array.union(typed_array)), MethodArg::Optional(integer)],
            undefined,
        ),
        signature(
            "slice"@,
            typed_array,
            seq![MethodArg::Optional(integer), MethodArg::Optional(integer)],
            undefined,
        ),
        signature("sort"@, typed_array, seq![], typed_array),
        signature(
            "subarray"@,
            typed_array,
            seq![MethodArg::Optional(integer), MethodArg::Optional(integer)],
            typed_array,
        ),
        signature("toLocaleString"@, typed_array, seq![], string),
    ]
}

fn build_typedarray_methods() -> (r: Vec<MethodSignature>)
    ensures
        signatures_view(r@) == typedarray_methods(),
{
    let integer = Type::int_type();
    let float = Type::float_type();
    let string = Type::string_type();
    let boolean = Type::bool_type();
    let undefined = Type::undefined_type();
    let array = Type::array_type();
    let typed_array = Type::obj(Shape::typed_array());
    let mut r: Vec<MethodSignature> = Vec::new();
    r.push(
        MethodSignature::new(
            "at",
            typed_array,
            one(MethodArg::Type(integer)),
            integer.union(float),
        ),
    );
    r.push(
        MethodSignature::new(
            "copyWithin",
            typed_array,
            three(MethodArg::Type(integer), MethodArg::Optional(integer), MethodArg::Optional(integer)),
            typed_array,
        ),
    );
    r.push(
        MethodSignature::new(
            "copyWithin",
            typed_array,
            three(MethodArg::Type(integer), MethodArg::Optional(integer), MethodArg::Optional(integer)),
            typed_array,
        ),
    );
    r.push(
        MethodSignature::new(
            "fill",
            typed_array,
            three(MethodArg::Type(integer.union(float)), MethodArg::Optional(integer), MethodArg::Optional(integer)),
            typed_array,
        ),
    );
    r.push(
        MethodSignature::new(
            "includes",
            typed_array,
            two(MethodArg::Type(integer.union(float)), MethodArg::Optional(integer)),
            boolean,
        ),
    );
    r.push(
        MethodSignature::new(
            "indexOf",
            typed_array,
            two(MethodArg::Type(integer.union(float)), MethodArg::Optional(integer)),
            integer,
        ),
    );
    r.push(MethodSignature::new("join", typed_array, Vec::new(), string));
    r.push(
        MethodSignature::new(
            "lastIndexOf",
            typed_array,
            two(MethodArg::Type(integer.union(float)), MethodArg::Optional(integer)),
            integer,
        ),
    );
    r.push(MethodSignature::new("reverse", typed_array, Vec::new(), integer));
    r.push(
        MethodSignature::new(
            "set",
            typed_array,
            two(MethodArg::Type(array.union(typed_array)), MethodArg::Optional(integer)),
            undefined,
        ),
    );
    r.push(
        MethodSignature::new(
            "slice",
            typed_array,
            two(MethodArg::Optional(integer), MethodArg::Optional(integer)),
            undefined,
        ),
    );
    r.push(MethodSignature::new("sort", typed_array, Vec::new(), typed_array));
    r.push(
        MethodSignature::new(
            "subarray",
            typed_array,
            two(MethodArg::Optional(integer), MethodArg::Optional(integer)),
            typed_array,
        ),
    );
    r.push(MethodSignature::new("toLocaleString", typed_array, Vec::new(), string));
    assert(signatures_view(r@) =~~= typedarray_methods());
    r
}

/// The static methods of the typed array builtin.
pub open spec fn typedarray_statics() -> Seq<MethodSignatureView> {
    let integer = Type::int_type();
    let array = Type::array_type();
    let typed_array = Type::obj(Shape::typed_array());
    let typed_array_static = Type::obj(Shape::typed_array().union(Shape::statik()));
    seq![
        signature("from"@, typed_array_static, seq![MethodArg::Type(array)], typed_array),
        signature("of"@, typed_array_static, seq![MethodArg::Repeat(10, integer)], typed_array),
    ]
}

fn build_typedarray_statics() -> (r: Vec<MethodSignature>)
    ensures
        signatures_view(r@) == typedarray_statics(),
{
    let integer = Type::int_type();
    let array = Type::array_type();
    let typed_array = Type::obj(Shape::typed_array());
    let typed_array_static = Type::obj(Shape::typed_array().union(Shape::statik()));
    let mut r: Vec<MethodSignature> = Vec::new();
    r.push(
        MethodSignature::new(
            "from",
            typed_array_static,
            one(MethodArg::Type(array)),
            typed_array,
        ),
    );
    r.push(
        MethodSignature::new(
            "of",
            typed_array_static,
            one(MethodArg::Repeat(10, integer)),
            typed_array,
        ),
    );
    assert(signatures_view(r@) =~~= typedarray_statics());
    r
}

/// The typed array builtin.
pub open spec fn typedarray_builtin() -> JSBuiltinView {
    let integer = Type::int_type();
    let object = Type::object_type();
    let typed_array = Type::obj(Shape::typed_array());
    let array_buffer = Type::obj(Shape::array_buffer());
    let typed_array_static = Type::obj(Shape::typed_array().union(Shape::statik()));
    JSBuiltinView {
        shape: Shape::typed_array(),
        constructor: seq![
            ConstructorTypeView::Callable(
                signature(
                    "TypedArray"@,
                    typed_array,
                    seq![MethodArg::Optional(integer.union(typed_array).union(object))],
                    typed_array,
                ),
            ),
            ConstructorTypeView::Callable(
                signature(
                    "TypedArray"@,
                    typed_array,
                    seq![MethodArg::Type(array_buffer), MethodArg::Optional(integer), MethodArg::Optional(integer)],
                    typed_array,
                ),
            ),
            ConstructorTypeView::NonCallable("TypedArray"@, typed_array_static),
        ],
        properties: seq!["buffer"@, "byteLength"@, "byteOffset"@, "length"@],
        methods: Some(typedarray_methods()),
        static_methods: Some(typedarray_statics()),
    }
}

/// The description of the runtime: every builtin, and the constructors of
/// all of them in one list.
pub struct JSRuntime {
    pub builtins: Vec<JSBuiltin>,
    pub constructors: Vec<ConstructorType>,
}

impl View for JSRuntime {
    type V = JSRuntimeView;

    open spec fn view(&self) -> JSRuntimeView {
        JSRuntimeView {
            builtins: self.builtins@.map_values(|b: JSBuiltin| b@),
            constructors: constructors_view(self.constructors@),
        }
    }
}

fn extend_signatures(ret: &mut Vec<MethodSignature>, list: &Vec<MethodSignature>)
    ensures
        signatures_view(final(ret)@) == signatures_view(old(ret)@) + signatures_view(list@),
{
    let mut i: usize = 0;
    while i < list.len()
        invariant
            i <= list@.len(),
            signatures_view(ret@) == signatures_view(old(ret)@) + signatures_view(
                list@.subrange(0, i as int),
            ),
        decreases list@.len() - i,
    {
        let ghost prev = ret@;
        let sig = list[i].clone();
        ret.push(sig);
        assert(signatures_view(ret@) =~= signatures_view(prev).push(list@[i as int]@));
        assert(signatures_view(list@.subrange(0, i + 1)) =~= signatures_view(
            list@.subrange(0, i as int),
        ).push(list@[i as int]@));
        i = i + 1;
    }
    assert(list@.subrange(0, i as int) =~= list@);
}

impl JSRuntime {
    /// The catalogue of the builtins `Array`, `Math`, `String`, `Object`,
    /// `ArrayBuffer` and the typed arrays, in this order, with the
    /// constructors of all of them.
    pub fn new() -> (r: JSRuntime)
        ensures
            r@.builtins == seq![
                array_builtin(),
                math_builtin(),
                string_builtin(),
                object_builtin(),
                arraybuffer_builtin(),
                typedarray_builtin(),
            ],
            r@.constructors == constructors_among(r@.builtins, 6),
    {
        let mut runtime = JSRuntime { builtins: Vec::new(), constructors: Vec::new() };
        assert(runtime@.builtins =~= Seq::empty());
        assert(runtime@.constructors =~= Seq::empty());
        runtime.register_array();
        runtime.register_math();
        runtime.register_string();
        runtime.register_object();
        runtime.register_arraybuffer();
        runtime.register_typedarray();
        assert(runtime@.builtins =~= seq![
            array_builtin(),
            math_builtin(),
            string_builtin(),
            object_builtin(),
            arraybuffer_builtin(),
            typedarray_builtin(),
        ]);
        runtime.init_constructors();
        assert(runtime@.constructors =~= constructors_among(runtime@.builtins, 6));
        runtime
    }

    /// Adds the `Array` builtin to the catalogue.
    fn register_array(&mut self)
        ensures
            final(self)@.builtins == old(self)@.builtins.push(array_builtin()),
            final(self)@.constructors == old(self)@.constructors,
    {
        let integer = Type::int_type();
        let array = Type::array_type();
        let static_array = Type::obj(Shape::array().union(Shape::statik()));
        let mut constructor: Vec<ConstructorType> = Vec::new();
        constructor.push(
            ConstructorType::Callable(
                MethodSignature::new("Array", array, one(MethodArg::Type(integer)), array),
            ),
        );
        constructor.push(ConstructorType::NonCallable("Array".to_owned(), static_array));
        let mut properties: Vec<String> = Vec::new();
        properties.push("length".to_owned());
        let builtin = JSBuiltin {
            shape: Shape::array(),
            constructor,
            properties,
            methods: Some(build_array_methods()),
            static_methods: Some(build_array_statics()),
        };
        proof {
            assert(builtin@.constructor =~~= array_builtin().constructor);
            assert(builtin@.properties =~= array_builtin().properties);
        }
        self.builtins.push(builtin);
        assert(self@.builtins =~= old(self)@.builtins.push(array_builtin()));
    }

    /// Adds the `Math` builtin to the catalogue.
    fn register_math(&mut self)
        ensures
            final(self)@.builtins == old(self)@.builtins.push(math_builtin()),
            final(self)@.constructors == old(self)@.constructors,
    {
        let math = Type::obj(Shape::math().union(Shape::statik()));
        let mut constructor: Vec<ConstructorType> = Vec::new();
        constructor.push(ConstructorType::NonCallable("Math".to_owned(), math));
        let mut properties: Vec<String> = Vec::new();
        properties.push("E".to_owned());
        properties.push("LN2".to_owned());
        properties.push("LN10".to_owned());
        properties.push("LOG2E".to_owned());
        properties.push("LOG10E".to_owned());
        properties.push("PI".to_owned());
        properties.push("SQRT_2".to_owned());
        properties.push("SQRT2".to_owned());
        let builtin = JSBuiltin {
            shape: Shape::math(),
            constructor,
            properties,
            methods: None,
            static_methods: Some(build_math_statics()),
        };
        proof {
            assert(builtin@.constructor =~~= math_builtin().constructor);
            assert(builtin@.properties =~= math_builtin().properties);
        }
        self.builtins.push(builtin);
        assert(self@.builtins =~= old(self)@.builtins.push(math_builtin()));
    }

    /// Adds the `String` builtin to the catalogue.
    fn register_string(&mut self)
        ensures
            final(self)@.builtins == old(self)@.builtins.push(string_builtin()),
            final(self)@.constructors == old(self)@.constructors,
    {
        let string = Type::string_type();
        let static_string = Type::obj(Shape::string().union(Shape::statik()));
        let mut constructor: Vec<ConstructorType> = Vec::new();
        constructor.push(
            ConstructorType::Callable(
                MethodSignature::new("String", string, Vec::new(), string),
            ),
        );
        constructor.push(ConstructorType::NonCallable("String".to_owned(), static_string));
        let mut properties: Vec<String> = Vec::new();
        properties.push("length".to_owned());
        let builtin = JSBuiltin {
            shape: Shape::string(),
            constructor,
            properties,
            methods: Some(build_string_methods()),
            static_methods: Some(build_string_statics()),
        };
        proof {
            assert(builtin@.constructor =~~= string_builtin().constructor);
            assert(builtin@.properties =~= string_builtin().properties);
        }
        self.builtins.push(builtin);
        assert(self@.builtins =~= old(self)@.builtins.push(string_builtin()));
    }

    /// Adds the `Object` builtin to the catalogue.
    pub fn register_object(&mut self)
        ensures
            final(self)@.builtins == old(self)@.builtins.push(object_builtin()),
            final(self)@.constructors == old(self)@.constructors,
    {
        let object = Type::object_type();
        let static_obj = Type::obj(Shape::object().union(Shape::statik()));
        let mut constructor: Vec<ConstructorType> = Vec::new();
        constructor.push(
            ConstructorType::Callable(
                MethodSignature::new("Object", object, Vec::new(), object),
            ),
        );
        constructor.push(ConstructorType::NonCallable("Object".to_owned(), static_obj));
        let mut properties: Vec<String> = Vec::new();
        properties.push("constructor".to_owned());
        properties.push("__proto__".to_owned());
        let builtin = JSBuiltin {
            shape: Shape::object(),
            constructor,
            properties,
            methods: None,
            static_methods: Some(build_object_statics()),
        };
        proof {
            assert(builtin@.constructor =~~= object_builtin().constructor);
            assert(builtin@.properties =~= object_builtin().properties);
        }
        self.builtins.push(builtin);
        assert(self@.builtins =~= old(self)@.builtins.push(object_builtin()));
    }

    /// Adds the `ArrayBuffer` builtin to the catalogue.
    fn register_arraybuffer(&mut self)
        ensures
            final(self)@.builtins == old(self)@.builtins.push(arraybuffer_builtin()),
            final(self)@.constructors == old(self)@.constructors,
    {
        let integer = Type::int_type();
        let arraybuf = Type::obj(Shape::array_buffer());
        let arraybuf_static = Type::obj(Shape::array_buffer().union(Shape::statik()));
        let mut constructor: Vec<ConstructorType> = Vec::new();
        constructor.push(
            ConstructorType::Callable(
                MethodSignature::new(
                    "ArrayBuffer",
                    arraybuf,
                    one(MethodArg::Type(integer)),
                    arraybuf,
                ),
            ),
        );
        constructor.push(ConstructorType::NonCallable("ArrayBuffer".to_owned(), arraybuf_static));
        let mut properties: Vec<String> = Vec::new();
        properties.push("byteLength".to_owned());
        let builtin = JSBuiltin {
            shape: Shape::array_buffer(),
            constructor,
            properties,
            methods: Some(build_arraybuffer_methods()),
            static_methods: Some(build_arraybuffer_statics()),
        };
        proof {
            assert(builtin@.constructor =~~= arraybuffer_builtin().constructor);
            assert(builtin@.properties =~= arraybuffer_builtin().properties);
        }
        self.builtins.push(builtin);
        assert(self@.builtins =~= old(self)@.builtins.push(arraybuffer_builtin()));
    }

    /// Adds the typed array builtin to the catalogue.
    fn register_typedarray(&mut self)
        ensures
            final(self)@.builtins == old(self)@.builtins.push(typedarray_builtin()),
            final(self)@.constructors == old(self)@.constructors,
    {
        let integer = Type::int_type();
        let object = Type::object_type();
        let typed_array = Type::obj(Shape::typed_array());
        let array_buffer = Type::obj(Shape::array_buffer());
        let typed_array_static = Type::obj(Shape::typed_array().union(Shape::statik()));
        let mut constructor: Vec<ConstructorType> = Vec::new();
        constructor.push(
            ConstructorType::Callable(
                MethodSignature::new(
                    "TypedArray",
                    typed_array,
                    one(MethodArg::Optional(integer.union(typed_array).union(object))),
                    typed_array,
                ),
            ),
        );
        constructor.push(
            ConstructorType::Callable(
                MethodSignature::new(
                    "TypedArray",
                    typed_array,
                    three(MethodArg::Type(array_buffer), MethodArg::Optional(integer), MethodArg::Optional(integer)),
                    typed_array,
                ),
            ),
        );
        constructor.push(
            ConstructorType::NonCallable(
                "TypedArray".to_owned(),
                typed_array_static,
            ),
        );
        let mut properties: Vec<String> = Vec::new();
        properties.push("buffer".to_owned());
        properties.push("byteLength".to_owned());
        properties.push("byteOffset".to_owned());
        properties.push("length".to_owned());
        let builtin = JSBuiltin {
            shape: Shape::typed_array(),
            constructor,
            properties,
            methods: Some(build_typedarray_methods()),
            static_methods: Some(build_typedarray_statics()),
        };
        proof {
            assert(builtin@.constructor =~~= typedarray_builtin().constructor);
            assert(builtin@.properties =~= typedarray_builtin().properties);
        }
        self.builtins.push(builtin);
        assert(self@.builtins =~= old(self)@.builtins.push(typedarray_builtin()));
    }

    /// Appends the constructors of every builtin to the list of
    /// constructors.
    pub fn init_constructors(&mut self)
        ensures
            final(self)@.builtins == old(self)@.builtins,
            final(self)@.constructors == old(self)@.constructors + constructors_among(
                old(self)@.builtins,
                old(self)@.builtins.len() as int,
            ),
    {
        let mut i: usize = 0;
        while i < self.builtins.len()
            invariant
                i <= self.builtins@.len(),
                self.builtins == old(self).builtins,
                self@.constructors == old(self)@.constructors + constructors_among(
                    self@.builtins,
                    i as int,
                ),
            decreases self.builtins@.len() - i,
        {
            let ghost before = self@.constructors;
            let mut j: usize = 0;
            while j < self.builtins[i].constructor.len()
                invariant
                    i < self.builtins@.len(),
                    self.builtins == old(self).builtins,
                    j <= self.builtins@[i as int].constructor@.len(),
                    self@.constructors == before + constructors_view(
                        self.builtins@[i as int].constructor@.subrange(0, j as int),
                    ),
                decreases self.builtins@[i as int].constructor@.len() - j,
            {
                let ghost prev = self.constructors@;
                let ghost list = self.builtins@[i as int].constructor@;
                let cons = self.builtins[i].constructor[j].clone();
                self.constructors.push(cons);
                assert(constructors_view(self.constructors@) =~= constructors_view(prev).push(
                    list[j as int]@,
                ));
                assert(constructors_view(list.subrange(0, j + 1)) =~= constructors_view(
                    list.subrange(0, j as int),
                ).push(list[j as int]@));
                j = j + 1;
            }
            assert(self.builtins@[i as int].constructor@.subrange(0, j as int)
                =~= self.builtins@[i as int].constructor@);
            assert(self@.constructors =~= old(self)@.constructors + constructors_among(
                self@.builtins,
                i + 1,
            ));
            i = i + 1;
        }
    }

    /// The methods that can be called on a variable of shape `shape`: those
    /// of every builtin whose shape contains it, in the order of the
    /// builtins; the methods of the constructor objects if the shape is
    /// static, those of the instances otherwise. There is no answer where no
    /// builtin matches or one that matches has no such methods.
    pub fn get_methods(&self, shape: Shape) -> (r: Option<Vec<MethodSignature>>)
        ensures
            match r {
                Some(list) => self@.methods(shape) == Some(signatures_view(list@)),
                None => self@.methods(shape) is None,
            },
    {
        let mut query = shape;
        let is_static = query.fetch_clear_static();
        if !query.is_pure_object() {
            query = query.intersection(Shape::object().complement());
        }
        assert(query == method_query(shape));
        let mut found = false;
        let mut ret: Vec<MethodSignature> = Vec::new();
        let mut i: usize = 0;
        assert(signatures_view(ret@) =~= Seq::empty());
        while i < self.builtins.len()
            invariant
                i <= self.builtins@.len(),
                query == method_query(shape),
                is_static == shape.is_static(),
                methods_among(self@.builtins, query, is_static, i as int) == Some(
                    (found, signatures_view(ret@)),
                ),
            decreases self.builtins@.len() - i,
        {
            let b = &self.builtins[i];
            assert(self@.builtins[i as int] == b@);
            let mut cshape = b.shape;
            if query.contains(Shape::object()) && !b.shape.is_pure_object() {
                cshape = cshape.intersection(Shape::object().complement());
            }
            if cshape.contains(query) {
                let list = if is_static {
                    &b.static_methods
                } else {
                    &b.methods
                };
                match list {
                    None => {
                        proof {
                            lemma_methods_among_none(
                                self@.builtins,
                                query,
                                is_static,
                                i + 1,
                                self@.builtins.len() as int,
                            );
                        }
                        return None;
                    },
                    Some(list) => {
                        extend_signatures(&mut ret, list);
                        found = true;
                    },
                }
            }
            i = i + 1;
        }
        if found {
            Some(ret)
        } else {
            None
        }
    }

    /// The properties that an object of shape `shape` may have: those of
    /// every builtin whose shape contains it, in the order of the builtins.
    /// There is no answer where no builtin matches.
    pub fn get_properties(&self, shape: Shape) -> (r: Option<Vec<String>>)
        ensures
            match r {
                Some(list) => self@.properties(shape) == Some(texts(list@)),
                None => self@.properties(shape) is None,
            },
    {
        let mut found = false;
        let mut ret: Vec<String> = Vec::new();
        let mut i: usize = 0;
        assert(texts(ret@) =~= Seq::empty());
        while i < self.builtins.len()
            invariant
                i <= self.builtins@.len(),
                properties_among(self@.builtins, shape, i as int) == (found, texts(ret@)),
            decreases self.builtins@.len() - i,
        {
            let b = &self.builtins[i];
            assert(self@.builtins[i as int] == b@);
            if b.shape.contains(shape) {
                let ghost before = texts(ret@);
                let mut j: usize = 0;
                while j < b.properties.len()
                    invariant
                        j <= b.properties@.len(),
                        texts(ret@) == before + texts(b.properties@.subrange(0, j as int)),
                    decreases b.properties@.len() - j,
                {
                    let ghost prev = ret@;
                    let name = b.properties[j].clone();
                    ret.push(name);
                    assert(texts(ret@) =~= texts(prev).push(b.properties@[j as int]@));
                    assert(texts(b.properties@.subrange(0, j + 1)) =~= texts(
                        b.properties@.subrange(0, j as int),
                    ).push(b.properties@[j as int]@));
                    j = j + 1;
                }
                assert(b.properties@.subrange(0, j as int) =~= b.properties@);
                found = true;
            }
            i = i + 1;
        }
        if found {
            Some(ret)
        } else {
            None
        }
    }

    /// Every constructor of the runtime.
    pub fn get_constructors(&self) -> (r: &Vec<ConstructorType>)
        ensures
            constructors_view(r@) == self@.constructors,
    {
        &self.constructors
    }
}

/// Once there is no answer among the first builtins, there is none among
/// more of them.
proof fn lemma_methods_among_none(
    builtins: Seq<JSBuiltinView>,
    query: Shape,
    is_static: bool,
    n: int,
    m: int,
)
    requires
        n <= m,
        methods_among(builtins, query, is_static, n) is None,
    ensures
        methods_among(builtins, query, is_static, m) is None,
    decreases m - n,
{
    if n < m {
        lemma_methods_among_none(builtins, query, is_static, n, m - 1);
    }
}

} // verus!

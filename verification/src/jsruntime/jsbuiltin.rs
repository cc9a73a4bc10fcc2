//! One builtin of the runtime.

use vstd::prelude::*;
use crate::ir::codeanalysis::types::{
    ConstructorType,
    ConstructorTypeView,
    MethodSignature,
    MethodSignatureView,
    Shape,
};
use crate::ir::operation::texts;

verus! {

/// A builtin object of the runtime: its shape, the ways to bring it into a
/// program, the properties of its instances, and the methods of its
/// instances and of the constructor object itself.
pub struct JSBuiltin {
    pub shape: Shape,
    pub constructor: Vec<ConstructorType>,
    pub properties: Vec<String>,
    pub methods: Option<Vec<MethodSignature>>,
    pub static_methods: Option<Vec<MethodSignature>>,
}

/// The mathematical value of a `JSBuiltin`.
pub ghost struct JSBuiltinView {
    pub shape: Shape,
    pub constructor: Seq<ConstructorTypeView>,
    pub properties: Seq<Seq<char>>,
    pub methods: Option<Seq<MethodSignatureView>>,
    pub static_methods: Option<Seq<MethodSignatureView>>,
}

/// The values of a sequence of method signatures.
pub open spec fn signatures_view(v: Seq<MethodSignature>) -> Seq<MethodSignatureView> {
    v.map_values(|m: MethodSignature| m@)
}

/// The values of a sequence of constructors.
pub open spec fn constructors_view(v: Seq<ConstructorType>) -> Seq<ConstructorTypeView> {
    v.map_values(|c: ConstructorType| c@)
}

/// The value of a list of method signatures that may be missing.
pub open spec fn optional_signatures_view(v: Option<Vec<MethodSignature>>) -> Option<
    Seq<MethodSignatureView>,
> {
    match v {
        Some(list) => Some(signatures_view(list@)),
        None => None,
    }
}

impl View for JSBuiltin {
    type V = JSBuiltinView;

    open spec fn view(&self) -> JSBuiltinView {
        JSBuiltinView {
            shape: self.shape,
            constructor: constructors_view(self.constructor@),
            properties: texts(self.properties@),
            methods: optional_signatures_view(self.methods),
            static_methods: optional_signatures_view(self.static_methods),
        }
    }
}

} // verus!

use zebra::ir::codeanalysis::types::{ConstructorType, Shape, Type};
use zebra::jsruntime::constants::{properties, typed_array_names};
use zebra::jsruntime::jsruntime::JSRuntime;

#[test]
fn six_builtins_in_order() {
    let rt = JSRuntime::new();
    let shapes: Vec<Shape> = rt.builtins.iter().map(|b| b.shape).collect();
    assert_eq!(
        shapes,
        vec![
            Shape::array(),
            Shape::math(),
            Shape::string(),
            Shape::object(),
            Shape::array_buffer(),
            Shape::typed_array(),
        ]
    );
}

#[test]
fn constructors_are_flattened() {
    let rt = JSRuntime::new();
    let names: Vec<String> = rt
        .get_constructors()
        .iter()
        .map(|c| match c {
            ConstructorType::Callable(ms) => format!("new {}", ms.get_name()),
            ConstructorType::NonCallable(name, _) => name.clone(),
        })
        .collect();
    assert_eq!(
        names,
        vec![
            "new Array", "Array", "Math", "new String", "String", "new Object", "Object",
            "new ArrayBuffer", "ArrayBuffer", "new TypedArray", "new TypedArray", "TypedArray",
        ]
    );
}

#[test]
fn math_methods_are_static() {
    let rt = JSRuntime::new();
    let math = Shape::math().union(Shape::statik());
    let methods = rt.get_methods(math).unwrap();
    assert_eq!(methods.len(), 35);
    assert_eq!(methods[0].get_name(), "random");
    assert_eq!(methods[0].output_type(), Type::float_type());
    assert_eq!(methods[0].min_args_count(), 0);
    assert!(rt.get_methods(Shape::math()).is_none());
}

#[test]
fn array_instance_methods() {
    let rt = JSRuntime::new();
    let methods = rt.get_methods(Shape::array()).unwrap();
    let names: Vec<&str> = methods.iter().map(|m| m.get_name().as_str()).collect();
    assert_eq!(names.len(), 13);
    assert_eq!(names[0], "push");
    assert_eq!(names[12], "splice");
    let statics = rt.get_methods(Shape::array().union(Shape::statik())).unwrap();
    assert_eq!(statics.len(), 3);
    assert_eq!(statics[2].get_name(), "of");
}

#[test]
fn plain_object_has_only_static_methods() {
    let rt = JSRuntime::new();
    assert!(rt.get_methods(Shape::object()).is_none());
    let statics = rt.get_methods(Shape::object().union(Shape::statik())).unwrap();
    assert_eq!(statics.len(), 19);
    assert_eq!(statics[0].get_name(), "assign");
}

#[test]
fn unknown_shape_has_no_methods() {
    let rt = JSRuntime::new();
    assert!(rt.get_methods(Shape::custom()).is_none());
    assert!(rt.get_methods(Shape::reflect()).is_none());
}

#[test]
fn properties_by_shape() {
    let rt = JSRuntime::new();
    assert_eq!(rt.get_properties(Shape::array()).unwrap(), vec!["length"]);
    assert_eq!(
        rt.get_properties(Shape::typed_array()).unwrap(),
        vec!["buffer", "byteLength", "byteOffset", "length"]
    );
    // Every builtin has the object bit, so each contributes to a plain object.
    assert_eq!(rt.get_properties(Shape::object()).unwrap().len(), 1 + 8 + 1 + 2 + 1 + 4);
    assert!(rt.get_properties(Shape::custom()).is_none());
    assert_eq!(rt.get_properties(Shape::none()).unwrap().len(), 17);
}

#[test]
fn constant_tables() {
    assert_eq!(typed_array_names()[0], "Array");
    assert_eq!(typed_array_names()[9], "Float64Array");
    assert_eq!(properties(), ["a", "b", "c", "d", "w", "x", "y", "z"]);
}

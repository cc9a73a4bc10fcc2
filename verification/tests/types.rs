use zebra::ir::codeanalysis::types::{
    ConstructorType, FunctionSignature, MethodArg, MethodSignature, PType, Shape, Type,
};

#[test]
fn shape_contains_itself() {
    let s = Shape::array();
    assert!(s.contains(s));
    assert!(Shape::any().contains(s));
}

#[test]
fn static_shape_does_not_contain_an_instance() {
    let ctor = Type::obj(Shape::statik());
    let instance = Type::obj(Shape::array());
    assert!(!ctor.contains(instance));
}

#[test]
fn union_of_int_and_float() {
    let t = Type::int_type() | Type::float_type();
    assert_eq!(t.ptype, PType { bits: 3 });
    assert_eq!(t.shape, Shape::none());
}

#[test]
fn flag_values() {
    assert_eq!(Shape::none().bits, 0);
    assert_eq!(Shape::statik().bits, 1);
    assert_eq!(Shape::object().bits, 2);
    assert_eq!(Shape::array().bits, 6);
    assert_eq!(Shape::array_buffer().bits, 10);
    assert_eq!(Shape::typed_array().bits, 18);
    assert_eq!(Shape::reflect().bits, 34);
    assert_eq!(Shape::math().bits, 66);
    assert_eq!(Shape::string().bits, 130);
    assert_eq!(Shape::custom().bits, 258);
    assert_eq!(Shape::any().bits, u64::MAX);
    assert_eq!(PType::integer().bits, 1);
    assert_eq!(PType::object().bits, 128);
    assert_eq!(PType::any().bits, 255);
}

#[test]
fn named_types() {
    assert_eq!(Type::default(), Type::unknown_type());
    assert_eq!(Type::basic(PType::boolean()), Type::bool_type());
    assert_eq!(Type::obj(Shape::array()), Type::array_type());
    assert_eq!(Type::new(PType::string(), Shape::string()), Type::string_type());
    assert_eq!(Type::object_type().shape, Shape::any());
}

#[test]
fn predicates() {
    let t = Type::int_type() | Type::bool_type();
    assert!(t.is_int() && t.is_bool() && t.is_integer());
    assert!(!t.is_numeric());
    assert!(Type::float_type().is_numeric());
    assert!(Type::undefined_type().is_numeric());
    assert!(!Type::string_type().is_numeric());
    assert!(Type::any_type().is_object() && Type::any_type().is_function());
    assert!(!Type::array_type().is_unknown());
}

#[test]
fn containment_on_primitive_types() {
    assert!(Type::int_type().contains(Type::int_type()));
    assert!(!Type::int_type().contains(Type::float_type()));
    assert!((Type::int_type() | Type::float_type()).contains(Type::float_type()));
    assert!(Type::any_type().contains(Type::bool_type()));
    assert!(Type::unknown_type().contains(Type::int_type() | Type::unknown_type()));
}

#[test]
fn containment_on_objects() {
    for s in [Shape::object(), Shape::array(), Shape::math(), Shape::custom(), Shape::any()] {
        assert!(Type::obj(s).contains(Type::obj(s)));
        assert!(Type::any_type().contains(Type::obj(s)));
        assert!(Type::object_type().contains(Type::obj(s)));
        assert!(Type::obj(Shape::object()).contains(Type::obj(s)));
    }
    assert!(Type::array_type().contains(Type::object_type()));
    assert!(Type::array_type().contains(Type::typed_array_type()));
    assert!(!Type::obj(Shape::none()).contains(Type::obj(Shape::none())));
    assert!(!Type::obj(Shape::statik()).contains(Type::obj(Shape::math())));
    assert!(Type::obj(Shape::statik()).contains(Type::obj(Shape::math().union(Shape::statik()))));
    // A string is an object of the string shape as well.
    assert!((Type::object_type() | Type::string_type()).contains(Type::string_type()));
}

#[test]
fn shape_helpers() {
    let mut s = Shape::array().union(Shape::statik());
    assert!(s.is_static());
    assert!(s.fetch_clear_static());
    assert_eq!(s, Shape::array());
    assert!(!s.fetch_clear_static());
    assert!(Shape::object().is_pure_object());
    assert!(Shape::none().is_pure_object());
    assert!(!Shape::array().is_pure_object());
    assert_eq!(Shape::array().intersection(Shape::object().complement()).bits, 4);
}

#[test]
fn signatures() {
    let mut f = FunctionSignature::new(3);
    assert!(f.is_constructing());
    assert_eq!(f.args_count(), 3);
    assert_eq!(f.get_input_types(), &vec![Type::unknown_type(); 3]);
    f.set_output_type(Type::array_type());
    f.set_output_type(Type::int_type());
    assert_eq!(f.get_output_type().ptype, PType { bits: 0xc1 });
    assert_eq!(f.get_output_type().shape, Shape::none());
    f.set_input_types(vec![Type::int_type(), Type::bool_type(), Type::any_type()]);
    f._set_input_type_at(1, Type::float_type());
    assert_eq!(f.get_input_types()[1], Type::float_type());
    f.done_constructing();
    assert!(!f.is_constructing());
    f.set_is_constructing();
    assert!(f.clone().is_constructing());
    let mut m = MethodSignature::new(
        "fill",
        Type::array_type(),
        vec![MethodArg::Type(Type::int_type()), MethodArg::Repeat(2, Type::int_type())],
        Type::array_type(),
    );
    assert_eq!(m.get_name(), "fill");
    assert_eq!(m.min_args_count(), 2);
    assert_eq!(*m.input_type_at(1), MethodArg::Repeat(2, Type::int_type()));
    assert_eq!(m.input_type_at(1).arg_type(), Type::int_type());
    assert_eq!(m.get_input_types().len(), 2);
    m.set_name("of");
    m.set_output_type(Type::int_type());
    assert_eq!(m.get_name(), "of");
    assert_eq!(m.output_type().ptype, PType { bits: 0x81 });
    let c = ConstructorType::Callable(m.clone());
    assert!(c.is_callable() && !c.is_non_callable());
    let n = ConstructorType::NonCallable("Math".to_string(), Type::object_type());
    assert!(n.clone().is_non_callable() && !n.is_callable());
}

use env_native::Error;
use env_native::FunctionRegistry;
use env_native::FunctionType;
use env_native::UserFunction;
use env_native::ValueType;
use env_native::NATIVE_INDEX_FUNC_MIN;

#[test]
fn threshold_value_is_part_of_the_index_encoding() {
    assert_eq!(NATIVE_INDEX_FUNC_MIN, 10001);
}

#[test]
fn statik_descriptor_keeps_name_params_and_result() {
    let f = UserFunction::statik("add", &[ValueType::I32, ValueType::I32], Some(ValueType::I32));
    assert_eq!(f.name(), "add");
    assert_eq!(f.params(), &[ValueType::I32, ValueType::I32]);
    assert_eq!(f.result(), Some(ValueType::I32));
}

#[test]
fn heap_descriptor_keeps_name_params_and_result() {
    let f = UserFunction::heap("log".to_string(), vec![ValueType::I64], None);
    assert_eq!(f.name(), "log");
    assert_eq!(f.params(), &[ValueType::I64]);
    assert_eq!(f.result(), None);
}

fn sample_registry() -> FunctionRegistry {
    FunctionRegistry::build(vec![
        UserFunction::heap("first".to_string(), vec![ValueType::I32], None),
        UserFunction::heap("second".to_string(), vec![], Some(ValueType::F64)),
        UserFunction::heap("first".to_string(), vec![ValueType::I64], Some(ValueType::I64)),
    ])
}

#[test]
fn lookup_finds_each_name() {
    let registry = sample_registry();
    assert_eq!(registry.lookup_by_name("second"), Some(1));
    assert_eq!(registry.lookup_by_name("absent"), None);
    assert_eq!(registry.len(), 3);
}

#[test]
fn lookup_prefers_the_last_duplicate() {
    let registry = sample_registry();
    assert_eq!(registry.lookup_by_name("first"), Some(2));
    let f = registry.get(2).unwrap();
    assert_eq!(f.params(), &[ValueType::I64]);
    assert_eq!(f.result(), Some(ValueType::I64));
}

#[test]
fn get_is_bounds_checked() {
    let registry = sample_registry();
    assert_eq!(registry.get(0).unwrap().name(), "first");
    assert!(registry.get(3).is_none());
}

#[test]
fn function_type_accessors_return_what_was_given() {
    let t = FunctionType::new(vec![ValueType::F32, ValueType::F64], Some(ValueType::I32));
    assert_eq!(*t.params(), vec![ValueType::F32, ValueType::F64]);
    assert_eq!(t.return_type(), Some(ValueType::I32));
}

#[test]
fn missing_native_message_is_exact() {
    assert_eq!(
        Error::NativeMissing(10002).message(),
        "missing native function at index 10002"
    );
    assert_eq!(Error::NativeMissing(0).message(), "missing native function at index 0");
    assert_eq!(
        Error::NativeMissing(4294967295).message(),
        "missing native function at index 4294967295"
    );
}

#[test]
fn other_message_passes_the_text_through() {
    assert_eq!(Error::Other("wrapped failure".to_string()).message(), "wrapped failure");
}

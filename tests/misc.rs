use napi_bind::bootstrap::{ModuleRecord, MODULE_VERSION};
use napi_bind::fib::{fibonacci_native, ComputeFib};
use napi_bind::user::User;

#[test]
fn fibonacci_values() {
    assert_eq!(fibonacci_native(1), 1);
    assert_eq!(fibonacci_native(2), 1);
    assert_eq!(fibonacci_native(10), 55);
    assert_eq!(fibonacci_native(20), 6765);
}

#[test]
fn compute_fib_task() {
    let t = ComputeFib::new(20);
    assert_eq!(t.n, 20);
    assert_eq!(t.compute(), 6765);
}

#[test]
fn module_record_for_api() {
    let m = ModuleRecord::new("api").unwrap();
    assert_eq!(m.version, 1);
    assert_eq!(MODULE_VERSION, 1);
    assert_eq!(m.flags, 0);
    assert_eq!(m.module_name, b"api\0".to_vec());
}

#[test]
fn module_record_empty_name() {
    let m = ModuleRecord::new("").unwrap();
    assert_eq!(m.module_name, vec![0u8]);
}

#[test]
fn module_record_rejects_interior_zero() {
    assert!(ModuleRecord::new("a\0b").is_none());
}

#[test]
fn user_fields() {
    let u = User { name: String::from("Example User"), id: 1 };
    assert_eq!(u.name, "Example User");
    assert_eq!(u.id, 1);
}

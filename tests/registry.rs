use napi_bind::registry::{gen_fn, register_fn, Registry};

fn names(r: &Registry<u32>) -> Vec<(String, u32)> {
    gen_fn(r).into_iter().map(|b| (b.name, b.trampoline)).collect()
}

#[test]
fn empty_registry_exports_nothing() {
    let r: Registry<u32> = Registry::new();
    assert_eq!(r.len(), 0);
    assert!(gen_fn(&r).is_empty());
    assert_eq!(r.get("f"), None);
}

#[test]
fn last_registration_wins() {
    let mut r: Registry<u32> = Registry::new();
    register_fn(&mut r, "f", 1);
    register_fn(&mut r, "f", 2);
    assert_eq!(names(&r), vec![("f".to_string(), 2)]);
    assert_eq!(r.get("f"), Some(2));
}

#[test]
fn overwrite_keeps_first_position() {
    let mut r: Registry<u32> = Registry::new();
    register_fn(&mut r, "a", 1);
    register_fn(&mut r, "b", 2);
    register_fn(&mut r, "a", 3);
    assert_eq!(names(&r), vec![("a".to_string(), 3), ("b".to_string(), 2)]);
}

fn unit_one(r: &mut Registry<u32>) {
    register_fn(r, "add", 10);
}

fn unit_two(r: &mut Registry<u32>) {
    register_fn(r, "answer", 20);
}

#[test]
fn two_units_both_exported() {
    let mut r: Registry<u32> = Registry::new();
    unit_two(&mut r);
    unit_one(&mut r);
    let out = names(&r);
    assert_eq!(out.len(), 2);
    assert!(out.contains(&("add".to_string(), 10)));
    assert!(out.contains(&("answer".to_string(), 20)));
    assert_eq!(r.get("add"), Some(10));
    assert_eq!(r.get("answer"), Some(20));
}

#[test]
fn names_differing_in_one_char_are_distinct() {
    let mut r: Registry<u32> = Registry::new();
    register_fn(&mut r, "ab", 1);
    register_fn(&mut r, "ac", 2);
    register_fn(&mut r, "a", 3);
    register_fn(&mut r, "", 4);
    assert_eq!(r.len(), 4);
    assert_eq!(r.get("ab"), Some(1));
    assert_eq!(r.get("a"), Some(3));
    assert_eq!(r.get(""), Some(4));
    assert_eq!(r.get("abc"), None);
}

fn double_it(x: f64) -> f64 {
    x * 2.0
}

fn negate(x: f64) -> f64 {
    -x
}

#[test]
fn function_pointers_as_trampolines() {
    let mut r: Registry<fn(f64) -> f64> = Registry::new();
    register_fn(&mut r, "g", double_it as fn(f64) -> f64);
    register_fn(&mut r, "g", negate as fn(f64) -> f64);
    let out = gen_fn(&r);
    assert_eq!(out.len(), 1);
    assert_eq!(out[0].name, "g");
    assert_eq!((out[0].trampoline)(3.0), -3.0);
}

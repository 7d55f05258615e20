use napi_bind::codegen::{FnArg, FnSignature, Generator};

fn named(name: &str, ty: &str) -> FnArg {
    FnArg::Named { name: name.to_string(), ty: ty.to_string() }
}

fn sig(name: &str, inputs: Vec<FnArg>, output: Option<&str>) -> FnSignature {
    FnSignature { name: name.to_string(), inputs, output: output.map(|s| s.to_string()) }
}

fn add(a: f64, b: f64) -> f64 {
    a + b
}

fn answer() -> f64 {
    42.0
}

#[test]
fn add_expansion_unpacks_both_arguments() {
    let mut g = Generator::new();
    let e = g.expand(&sig("add", vec![named("a", "f64"), named("b", "f64")], Some("f64")));
    assert!(e.bootstrap);
    assert_eq!(e.export_name, "add");
    assert_eq!(e.trampoline_name, "js_add");
    assert_eq!(e.init_name, "_napi_add");
    assert_eq!(e.return_type, "f64");
    assert_eq!(e.args.len(), 2);
    assert_eq!(e.args[0].position, 0);
    assert_eq!(e.args[1].position, 1);
    assert_eq!(e.args[0].native_type, "f64");
    assert_eq!(e.args[1].native_type, "f64");
    // a host call with the arguments 2.0 and 3.0, unpacked as the plan says
    let host_args = [2.0, 3.0];
    let a = host_args[e.args[0].position];
    let b = host_args[e.args[1].position];
    assert_eq!(add(a, b), 5.0);
}

#[test]
fn zero_argument_expansion() {
    let mut g = Generator::new();
    let e = g.expand(&sig("answer", vec![], Some("f64")));
    assert_eq!(e.args.len(), 0);
    assert_eq!(e.return_type, "f64");
    assert_eq!(e.trampoline_name, "js_answer");
    assert_eq!(answer(), 42.0);
}

#[test]
fn unit_return_type() {
    let mut g = Generator::new();
    let e = g.expand(&sig("tick", vec![], None));
    assert_eq!(e.return_type, "()");
}

#[test]
fn receivers_and_patterns_are_dropped() {
    let mut g = Generator::new();
    let inputs = vec![
        FnArg::Receiver,
        named("x", "f64"),
        FnArg::Pattern { ty: "(f64, f64)".to_string() },
        named("y", "i32"),
    ];
    let e = g.expand(&sig("mixed", inputs, Some("f64")));
    assert_eq!(e.args.len(), 2);
    assert_eq!(e.args[0].position, 0);
    assert_eq!(e.args[0].native_type, "f64");
    assert_eq!(e.args[1].position, 1);
    assert_eq!(e.args[1].native_type, "i32");
}

#[test]
fn bootstrap_emitted_once_per_unit() {
    let mut g = Generator::new();
    let sigs = vec![
        sig("a", vec![], None),
        sig("b", vec![named("x", "f64")], Some("f64")),
        sig("c", vec![], Some("f64")),
    ];
    let out = g.generate_unit(&sigs);
    assert_eq!(out.len(), 3);
    assert_eq!(out.iter().filter(|e| e.bootstrap).count(), 1);
    assert!(out[0].bootstrap);
    assert!(g.is_bootstrapped());
    let again = g.expand(&sig("d", vec![], None));
    assert!(!again.bootstrap);
}

#[test]
fn claim_bootstrap_first_only() {
    let mut g = Generator::new();
    assert!(!g.is_bootstrapped());
    assert!(g.claim_bootstrap());
    assert!(!g.claim_bootstrap());
    assert!(!g.claim_bootstrap());
}

#[test]
fn empty_unit_emits_nothing() {
    let mut g = Generator::new();
    let out = g.generate_unit(&vec![]);
    assert!(out.is_empty());
    assert!(!g.is_bootstrapped());
}

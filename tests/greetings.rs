use target_greetings::{all_targets_hello, is_allowed, standard_hello, wasm_hello, Greeting, Target};

#[test]
fn test_all_targets_hello() {
    assert_eq!(all_targets_hello(), "Hello, all targets!");
}

#[test]
fn test_standard_hello() {
    assert_eq!(standard_hello(Target::Native), "Hello, world!");
}

#[test]
fn wasm_hello_text() {
    assert_eq!(wasm_hello(Target::Wasm), "Hello, WASM!");
}

#[test]
fn native_build_allows_standard_only() {
    assert!(is_allowed(Greeting::Standard, Target::Native));
    assert!(!is_allowed(Greeting::Wasm, Target::Native));
}

#[test]
fn wasm_build_allows_wasm_only() {
    assert!(is_allowed(Greeting::Wasm, Target::Wasm));
    assert!(!is_allowed(Greeting::Standard, Target::Wasm));
}

#[test]
fn universal_allowed_everywhere() {
    assert!(is_allowed(Greeting::AllTargets, Target::Native));
    assert!(is_allowed(Greeting::AllTargets, Target::Wasm));
}

#[test]
fn repeated_calls_agree() {
    assert_eq!(standard_hello(Target::Native), standard_hello(Target::Native));
    assert_eq!(wasm_hello(Target::Wasm), wasm_hello(Target::Wasm));
    assert_eq!(all_targets_hello(), all_targets_hello());
}

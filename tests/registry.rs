use std::collections::HashMap;

use gemini_client::{FunctionRegistry, Part};

type Handler = Box<dyn Fn(HashMap<String, String>) -> Result<String, String> + Send + Sync>;

fn args(pairs: &[(&str, &str)]) -> HashMap<String, String> {
    pairs.iter().map(|(k, v)| (k.to_string(), v.to_string())).collect()
}

fn call(name: &str, a: HashMap<String, String>) -> Part {
    Part::FunctionCall { name: name.to_string(), args: a }
}

fn echo() -> Handler {
    Box::new(|a: HashMap<String, String>| {
        let mut keys: Vec<_> = a.iter().map(|(k, v)| format!("{}={}", k, v)).collect();
        keys.sort();
        Ok(keys.join(","))
    })
}

fn constant(s: &'static str) -> Handler {
    Box::new(move |_a: HashMap<String, String>| Ok(s.to_string()))
}

#[test]
fn dispatch_calls_registered_handler_with_args() {
    let mut r: FunctionRegistry<Handler> = FunctionRegistry::new();
    r.register("weather".to_string(), echo());
    let out = r.dispatch(&call("weather", args(&[("city", "Oslo"), ("unit", "C")])));
    assert_eq!(out, Ok("city=Oslo,unit=C".to_string()));
}

#[test]
fn dispatch_passes_empty_args() {
    let mut r: FunctionRegistry<Handler> = FunctionRegistry::new();
    r.register("noop".to_string(), echo());
    assert_eq!(r.dispatch(&call("noop", HashMap::new())), Ok(String::new()));
}

#[test]
fn handler_error_is_returned_unchanged() {
    let mut r: FunctionRegistry<Handler> = FunctionRegistry::new();
    r.register("fail".to_string(), Box::new(|_a: HashMap<String, String>| Err("quota exceeded".to_string())));
    assert_eq!(r.dispatch(&call("fail", HashMap::new())), Err("quota exceeded".to_string()));
}

#[test]
fn dispatch_unknown_function_names_it() {
    let mut r: FunctionRegistry<Handler> = FunctionRegistry::new();
    r.register("known".to_string(), echo());
    assert_eq!(
        r.dispatch(&call("missing", args(&[("a", "b")]))),
        Err("Unknown function: missing".to_string())
    );
}

#[test]
fn dispatch_text_part_fails_on_empty_registry() {
    let r: FunctionRegistry<Handler> = FunctionRegistry::new();
    assert_eq!(r.dispatch(&Part::Text("hello".to_string())), Err("Not a function call".to_string()));
}

#[test]
fn dispatch_text_part_fails_even_when_name_is_registered() {
    let mut r: FunctionRegistry<Handler> = FunctionRegistry::new();
    r.register("hello".to_string(), echo());
    assert_eq!(r.dispatch(&Part::Text("hello".to_string())), Err("Not a function call".to_string()));
}

#[test]
fn registering_twice_keeps_only_the_second() {
    let mut r: FunctionRegistry<Handler> = FunctionRegistry::new();
    r.register("f".to_string(), constant("first"));
    r.register("f".to_string(), constant("second"));
    assert_eq!(r.len(), 1);
    assert_eq!(r.dispatch(&call("f", HashMap::new())), Ok("second".to_string()));
}

#[test]
fn replacing_a_handler_keeps_the_others() {
    let mut r: FunctionRegistry<Handler> = FunctionRegistry::new();
    r.register("a".to_string(), constant("a1"));
    r.register("b".to_string(), constant("b1"));
    r.register("c".to_string(), constant("c1"));
    r.register("a".to_string(), constant("a2"));
    assert_eq!(r.len(), 3);
    assert_eq!(r.dispatch(&call("a", HashMap::new())), Ok("a2".to_string()));
    assert_eq!(r.dispatch(&call("b", HashMap::new())), Ok("b1".to_string()));
    assert_eq!(r.dispatch(&call("c", HashMap::new())), Ok("c1".to_string()));
}

#[test]
fn new_registry_is_empty() {
    let r: FunctionRegistry<Handler> = FunctionRegistry::new();
    assert_eq!(r.len(), 0);
    assert_eq!(r.dispatch(&call("any", HashMap::new())), Err("Unknown function: any".to_string()));
}

#[test]
fn distinct_names_are_all_registered_in_any_order() {
    let names: Vec<String> = (0..10).map(|i| format!("tool_{}", i)).collect();
    let mut forward: FunctionRegistry<Handler> = FunctionRegistry::new();
    let mut backward: FunctionRegistry<Handler> = FunctionRegistry::new();
    for n in names.iter() {
        let tag = n.clone();
        forward.register(n.clone(), Box::new(move |_a: HashMap<String, String>| Ok(tag.clone())));
    }
    for n in names.iter().rev() {
        let tag = n.clone();
        backward.register(n.clone(), Box::new(move |_a: HashMap<String, String>| Ok(tag.clone())));
    }
    assert_eq!(forward.len(), 10);
    assert_eq!(backward.len(), 10);
    for n in names.iter() {
        assert_eq!(forward.dispatch(&call(n, HashMap::new())), Ok(n.clone()));
        assert_eq!(backward.dispatch(&call(n, HashMap::new())), Ok(n.clone()));
    }
}

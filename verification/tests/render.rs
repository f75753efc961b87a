use std::sync::Arc;

use dashmap::DashMap;
use srtemplate::builtin;
use srtemplate::parser::parser;
use srtemplate::render::nodes;
use srtemplate::template::registry::{Function, Functions, Variables};

fn function(function: fn(&[String]) -> srtemplate::function::FuncResult) -> Arc<dyn Function> {
    Arc::new(function)
}

#[test]
fn basic_render() {
    let vars: Variables = DashMap::from_iter([("var".to_string(), "World".to_string())]);
    let template = "Hello {{ var }}";
    let tnodes = parser(template, "{{", "}}").unwrap();
    let mut res = String::new();

    for tnode in tnodes.into_iter() {
        let out = nodes(&mut res, tnode, &vars, &DashMap::new());
        assert!(out.is_ok());
    }

    assert_eq!(&res, "Hello World");
}

#[test]
fn basic_function_render() {
    let vars: Variables = DashMap::from_iter([("var".to_string(), "WoRlD".to_string())]);
    let funcs: Functions = DashMap::from_iter([(
        "toLowerCase".to_string(),
        function(builtin::text::to_lower),
    )]);
    let template = "Hello {{ toLowerCase(var) }}";
    let tnodes = parser(template, "{{", "}}").unwrap();
    let mut res = String::new();

    for tnode in tnodes.into_iter() {
        let out = nodes(&mut res, tnode, &vars, &funcs);
        assert!(out.is_ok());
    }

    assert_eq!(&res, "Hello world");
}

#[test]
fn recursive_function_render() {
    let vars: Variables = DashMap::from_iter([("var".to_string(), "WoRlD".to_string())]);
    let funcs: Functions = DashMap::from_iter([
        (
            "toLowerCase".to_string(),
            function(builtin::text::to_lower),
        ),
        ("trim".to_string(), function(builtin::text::trim)),
    ]);
    let template = "Hello {{ toLowerCase(trim(var)) }}";
    let tnodes = parser(template, "{{", "}}").unwrap();
    let mut res = String::new();

    for node in tnodes.into_iter() {
        let out = nodes(&mut res, node, &vars, &funcs);
        assert!(out.is_ok());
    }

    assert_eq!(&res, "Hello world");
}

#[test]
fn raw_string_render() {
    let vars: Variables = DashMap::from_iter([("var".to_string(), "    WoRlD".to_string())]);
    let funcs: Functions = DashMap::from_iter([
        (
            "toLowerCase".to_string(),
            function(builtin::text::to_lower),
        ),
        ("trim".to_string(), function(builtin::text::trim)),
    ]);
    let template = r#"Hello
{{ toLowerCase(trim(var, "  !   ")) }}"#;
    let tnodes = parser(template, "{{", "}}").unwrap();
    let mut res = String::new();

    for tnode in tnodes.into_iter() {
        let out = nodes(&mut res, tnode, &vars, &funcs);
        assert!(out.is_ok());
    }

    assert_eq!(&res, "Hello\nworld !");
}

use std::sync::{Arc, Mutex};

use srtemplate::function::{FuncResult, FunctionError};
use srtemplate::parser::error::{SyntaxErrorKind, SyntaxErrorToken};
use srtemplate::{Error, SrTemplate};

#[test]
fn variable_is_substituted() {
    let ctx = SrTemplate::default();
    ctx.add_variable("var", "World");
    assert_eq!(ctx.render("Hello {{ var }}"), Ok("Hello World".to_string()));
}

#[test]
fn nested_calls_are_evaluated_inside_out() {
    let ctx = SrTemplate::default();
    ctx.add_variable("var", "  hi  ");
    assert_eq!(ctx.render("{{ toUpper(trim(var)) }}"), Ok("HI".to_string()));
}

#[test]
fn numbers_are_added() {
    let ctx = SrTemplate::default();
    assert_eq!(ctx.render("{{ add_u8(1, 2, 3) }}"), Ok("6".to_string()));
}

#[test]
fn argument_of_wrong_type_is_an_error() {
    let ctx = SrTemplate::default();
    ctx.add_variable("x", "one");
    assert_eq!(
        ctx.render("{{ add_u8(1, x) }}"),
        Err(Error::Function(FunctionError::InvalidType("one".to_string())))
    );
}

#[test]
fn malformed_close_is_a_syntax_error() {
    let ctx = SrTemplate::default();
    ctx.add_variable("name", "you");
    match ctx.render("Hi {{ name }") {
        Err(Error::BadSyntax(error)) => {
            assert_eq!(
                error.kind,
                SyntaxErrorKind::Expected(
                    SyntaxErrorToken::String("}}".to_string()),
                    SyntaxErrorToken::Eof
                )
            );
            assert_eq!(error.at, 11);
            assert_eq!(error.line, 0);
            assert_eq!(error.column, 11);
            assert_eq!(error.context, "Hi {{ name }");
            assert_eq!(error.help, "help: add \"}}\"");
        }
        other => panic!("expected a syntax error, got {other:?}"),
    }
}

#[test]
fn comma_in_a_string_does_not_split_arguments() {
    let seen: Arc<Mutex<Vec<Vec<String>>>> = Arc::new(Mutex::new(Vec::new()));
    let log = Arc::clone(&seen);
    let ctx = SrTemplate::default();
    ctx.add_variable("x", "value of x");
    ctx.add_function("greet", move |args: &[String]| -> FuncResult {
        log.lock().unwrap().push(args.to_vec());
        Ok(args.join("|"))
    });
    assert_eq!(
        ctx.render(r#"{{ greet("a,b", x) }}"#),
        Ok("a,b|value of x".to_string())
    );
    assert_eq!(
        *seen.lock().unwrap(),
        vec![vec!["a,b".to_string(), "value of x".to_string()]]
    );
}

#[test]
fn text_without_delimiters_is_unchanged() {
    let ctx = SrTemplate::default();
    for text in ["", "plain", "a { b } c", "}} closing only", "tab\tand\nline", "caf\u{e9} \u{1f600}"] {
        assert_eq!(ctx.render(text), Ok(text.to_string()));
    }
}

#[test]
fn text_round_a_variable_is_preserved() {
    let ctx = SrTemplate::default();
    ctx.add_variable("name", "v\u{e4}lue {{ not parsed }}");
    assert_eq!(
        ctx.render("\u{fc}ber {{name}} \u{2192} {{   name\t}}!\n"),
        Ok("\u{fc}ber v\u{e4}lue {{ not parsed }} \u{2192} v\u{e4}lue {{ not parsed }}!\n".to_string())
    );
}

#[test]
fn arguments_are_evaluated_left_to_right_before_the_call() {
    let order: Arc<Mutex<Vec<String>>> = Arc::new(Mutex::new(Vec::new()));
    let ctx = SrTemplate::default();
    for name in ["first", "second", "third", "outer"] {
        let log = Arc::clone(&order);
        ctx.add_function(name, move |args: &[String]| -> FuncResult {
            log.lock().unwrap().push(format!("{name}({})", args.join(",")));
            Ok(name.to_string())
        });
    }
    assert_eq!(
        ctx.render("{{ outer(first(), second(third()), \"s\") }}"),
        Ok("outer".to_string())
    );
    assert_eq!(
        *order.lock().unwrap(),
        vec![
            "first()".to_string(),
            "third()".to_string(),
            "second(third)".to_string(),
            "outer(first,second,s)".to_string()
        ]
    );
}

#[test]
fn first_failing_argument_ends_the_call() {
    let calls: Arc<Mutex<Vec<String>>> = Arc::new(Mutex::new(Vec::new()));
    let ctx = SrTemplate::default();
    let log = Arc::clone(&calls);
    ctx.add_function("fail", move |args: &[String]| -> FuncResult {
        log.lock().unwrap().push("fail".to_string());
        Err(FunctionError::RuntimeError(args.join(",")))
    });
    let log = Arc::clone(&calls);
    ctx.add_function("outer", move |_: &[String]| -> FuncResult {
        log.lock().unwrap().push("outer".to_string());
        Ok(String::new())
    });
    assert_eq!(
        ctx.render("{{ outer(fail(\"1\"), fail(\"2\"), missing) }}"),
        Err(Error::Function(FunctionError::RuntimeError("1".to_string())))
    );
    assert_eq!(*calls.lock().unwrap(), vec!["fail".to_string()]);
    assert_eq!(
        ctx.render("{{ outer(missing, fail(\"2\")) }}"),
        Err(Error::VariableNotFound("missing".to_string()))
    );
    assert_eq!(
        ctx.render("{{ nothing(missing) }}"),
        Err(Error::VariableNotFound("missing".to_string()))
    );
    assert_eq!(*calls.lock().unwrap(), vec!["fail".to_string()]);
}

#[test]
fn unknown_names_are_errors() {
    let ctx = SrTemplate::default();
    assert_eq!(
        ctx.render("a {{ nobody }} b"),
        Err(Error::VariableNotFound("nobody".to_string()))
    );
    assert_eq!(
        ctx.render("a {{ nothing() }} b"),
        Err(Error::FunctionNotImplemented("nothing".to_string()))
    );
    assert_eq!(
        ctx.render("a {{ }} b"),
        Err(Error::VariableNotFound(String::new()))
    );
    ctx.add_variable("", "empty name");
    assert_eq!(ctx.render("a {{ }} b"), Ok("a empty name b".to_string()));
}

#[test]
fn parse_error_runs_no_function() {
    let calls: Arc<Mutex<usize>> = Arc::new(Mutex::new(0));
    let ctx = SrTemplate::default();
    let log = Arc::clone(&calls);
    ctx.add_function("count", move |_: &[String]| -> FuncResult {
        *log.lock().unwrap() += 1;
        Ok(String::new())
    });
    assert!(matches!(
        ctx.render("{{ count() }} {{ count( }}"),
        Err(Error::BadSyntax(_))
    ));
    assert_eq!(*calls.lock().unwrap(), 0);
}

#[test]
fn changed_delimiters_hold_for_later_renders() {
    let mut ctx = SrTemplate::default();
    ctx.add_variable("var", "mUnDo");
    assert_eq!(
        ctx.render("Hola {{ toLower(var) }}"),
        Ok("Hola mundo".to_string())
    );
    ctx.set_delimiter("||", "||");
    assert_eq!(
        ctx.render("Hola || toLower(var) ||"),
        Ok("Hola mundo".to_string())
    );
    assert_eq!(
        ctx.render("Hola {{ toLower(var) }}"),
        Ok("Hola {{ toLower(var) }}".to_string())
    );
    let ctx = SrTemplate::with_delimiter("${", "}");
    ctx.add_variable("var", "mUnDo");
    assert_eq!(
        ctx.render("Hola ${ toLower(var)}"),
        Ok("Hola mundo".to_string())
    );
}

#[test]
fn delimiters_of_several_bytes() {
    let ctx = SrTemplate::with_delimiter("\u{ab}", "\u{bb}");
    ctx.add_variable("x", "1");
    assert_eq!(
        ctx.render("a \u{ab}x\u{bb} \u{e9}\u{ab} x \u{bb}"),
        Ok("a 1 \u{e9}1".to_string())
    );
    let ctx = SrTemplate::with_delimiter("<%=", "%>");
    ctx.add_variable("x", "1");
    assert_eq!(ctx.render("<% <%= x %> %>"), Ok("<% 1 %>".to_string()));
}

#[test]
fn clones_share_the_registry() {
    let ctx = SrTemplate::default();
    let copy = ctx.clone();
    copy.add_variable("shared", 85u8);
    assert!(ctx.contains_variable("shared"));
    assert_eq!(ctx.render("{{shared}}"), Ok("85".to_string()));
    ctx.add_variable("shared", "again");
    assert_eq!(copy.render("{{shared}}"), Ok("again".to_string()));
    ctx.remove_variable("shared");
    assert!(!copy.contains_variable("shared"));
    assert!(copy.contains_function("trim"));
    ctx.remove_function("trim");
    assert!(!copy.contains_function("trim"));
    copy.add_variables(vec![
        ("a".to_string(), "1".to_string()),
        ("b".to_string(), "2".to_string()),
    ]);
    assert_eq!(ctx.render("{{a}}{{b}}"), Ok("12".to_string()));
    ctx.clear_variables();
    assert!(!copy.contains_variable("a"));
    ctx.clear_functions();
    assert!(!copy.contains_function("toUpper"));
}

#[test]
fn registered_function_replaces_a_builtin() {
    let ctx = SrTemplate::default();
    ctx.add_function("trim", |_: &[String]| -> FuncResult { Ok("mine".to_string()) });
    assert_eq!(ctx.render("{{ trim(\" x \") }}"), Ok("mine".to_string()));
}

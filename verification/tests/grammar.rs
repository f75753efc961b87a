use srtemplate::parser::error::SyntaxErrorKind;
use srtemplate::parser::functions::parse_function_arguments;
use srtemplate::parser::lexer::SintaxNode;
use srtemplate::parser::{
    advance, advance_delimiter, check_delimiter, identifier, is_eof, parse_template_expression,
    parser, raw_text, skip_whitespace, TemplateNode,
};
use srtemplate::Error;

fn kind_of(result: Result<Vec<TemplateNode>, Error>) -> SyntaxErrorKind {
    match result {
        Err(Error::BadSyntax(error)) => error.kind,
        other => panic!("expected a syntax error, got {other:?}"),
    }
}

#[test]
fn empty_template_has_no_nodes() {
    assert_eq!(parser("", "{{", "}}"), Ok(vec![]));
}

#[test]
fn a_comma_before_the_closing_parenthesis_is_accepted() {
    assert_eq!(
        parser("{{ f(a,) }}", "{{", "}}"),
        Ok(vec![TemplateNode::Function("f", vec![TemplateNode::Variable("a")])])
    );
    assert_eq!(
        parser("{{ f( a , \"b\" , ) }}", "{{", "}}"),
        Ok(vec![TemplateNode::Function(
            "f",
            vec![TemplateNode::Variable("a"), TemplateNode::String("b")]
        )])
    );
}

#[test]
fn an_argument_may_be_an_empty_name() {
    assert_eq!(
        parser("{{ f(,a) }}", "{{", "}}"),
        Ok(vec![TemplateNode::Function(
            "f",
            vec![TemplateNode::Variable(""), TemplateNode::Variable("a")]
        )])
    );
    assert_eq!(
        parser("{{}}", "{{", "}}"),
        Ok(vec![TemplateNode::Variable("")])
    );
}

#[test]
fn whitespace_round_an_expression_is_skipped() {
    assert_eq!(
        parser("{{\t\n name \r\n}}", "{{", "}}"),
        Ok(vec![TemplateNode::Variable("name")])
    );
    assert_eq!(
        parser("{{name (\n) }}", "{{", "}}"),
        Ok(vec![TemplateNode::Function("name", vec![])])
    );
    assert_eq!(
        kind_of(parser("{{ na me }}", "{{", "}}")),
        SyntaxErrorKind::Expected(
            srtemplate::parser::error::SyntaxErrorToken::String("}}".to_string()),
            srtemplate::parser::error::SyntaxErrorToken::Eof
        )
    );
}

#[test]
fn string_literals_are_kept_as_written() {
    assert_eq!(
        parser(r#"{{ f("a \" \\", "\n", "", "caf\u{e9} }} {{") }}"#, "{{", "}}"),
        Ok(vec![TemplateNode::Function(
            "f",
            vec![
                TemplateNode::String(r#"a \" \\"#),
                TemplateNode::String(r"\n"),
                TemplateNode::String(""),
                TemplateNode::String(r"caf\u{e9} }} {{"),
            ]
        )])
    );
    assert_eq!(
        parser("{{ f(\"\u{e9}\u{1f600}\") }}", "{{", "}}"),
        Ok(vec![TemplateNode::Function(
            "f",
            vec![TemplateNode::String("\u{e9}\u{1f600}")]
        )])
    );
    assert_eq!(
        kind_of(parser(r#"{{ f("a\") }}"#, "{{", "}}")),
        SyntaxErrorKind::UnterminatedString
    );
}

#[test]
fn number_literals() {
    assert_eq!(
        parser("{{ f(1,2.,3.5) }}", "{{", "}}"),
        Ok(vec![TemplateNode::Function(
            "f",
            vec![
                TemplateNode::Number("1"),
                TemplateNode::Float("2."),
                TemplateNode::Float("3.5"),
            ]
        )])
    );
    assert_eq!(kind_of(parser("{{ f(1 ) }}", "{{", "}}")), SyntaxErrorKind::InvalidNumber);
    assert_eq!(kind_of(parser("{{ f(1a) }}", "{{", "}}")), SyntaxErrorKind::InvalidNumber);
    assert_eq!(kind_of(parser("{{ f(1..2) }}", "{{", "}}")), SyntaxErrorKind::FloatDotted);
    assert_eq!(
        parser("{{ f(1", "{{", "}}").map_err(|error| match error {
            Error::BadSyntax(error) => (error.kind, error.at),
            other => panic!("{other:?}"),
        }),
        Err((SyntaxErrorKind::UnterminatedArgument, 3))
    );
}

#[test]
fn delimiters_inside_raw_text() {
    assert_eq!(
        parser("a { b } }} c {{ d }} e", "{{", "}}"),
        Ok(vec![
            TemplateNode::RawText("a { b } }} c "),
            TemplateNode::Variable("d"),
            TemplateNode::RawText(" e"),
        ])
    );
    assert_eq!(
        parser("{{{ a }}", "{{", "}}").map_err(|error| match error {
            Error::BadSyntax(error) => error.at,
            other => panic!("{other:?}"),
        }),
        Err(2)
    );
    assert_eq!(
        parser("{{a}}{{b}}", "{{", "}}"),
        Ok(vec![TemplateNode::Variable("a"), TemplateNode::Variable("b")])
    );
    assert_eq!(
        parser("|a||b|", "|", "|"),
        Ok(vec![TemplateNode::Variable("a"), TemplateNode::Variable("b")])
    );
    assert_eq!(
        parser("x<<a>y", "<<", ">"),
        Ok(vec![
            TemplateNode::RawText("x"),
            TemplateNode::Variable("a"),
            TemplateNode::RawText("y"),
        ])
    );
}

#[test]
fn cursor_primitives() {
    let chars = "ab  \t_c1(".as_bytes();
    let mut position = 0;
    assert!(!is_eof(chars, 8));
    assert!(is_eof(chars, 9));
    advance(chars, &mut position);
    assert_eq!(position, 1);
    position = 9;
    advance(chars, &mut position);
    assert_eq!(position, 9);
    position = 2;
    skip_whitespace(chars, &mut position);
    assert_eq!(position, 5);
    skip_whitespace(chars, &mut position);
    assert_eq!(position, 5);
    assert_eq!(identifier(chars, &mut position), (5, 8));
    assert_eq!(identifier(chars, &mut position), (8, 8));
    assert!(check_delimiter(chars, "(", 8));
    assert!(check_delimiter(chars, "", 9));
    assert!(!check_delimiter(chars, "(", 9));
    assert!(!check_delimiter(chars, "((", 8));
    assert!(!advance_delimiter(chars, "ab ", &mut position));
    assert_eq!(position, 8);
    position = 0;
    assert!(advance_delimiter(chars, "ab ", &mut position));
    assert_eq!(position, 3);
}

#[test]
fn parts_of_the_parser() {
    let input = "text {{ f(a, \"b\") }} more";
    let chars = input.as_bytes();
    let mut position = 0;
    assert_eq!(
        raw_text(input, chars, "{{", &mut position),
        TemplateNode::RawText("text ")
    );
    assert_eq!(position, 5);
    position = 7;
    assert_eq!(
        parse_template_expression(input, chars, &mut position),
        Ok(TemplateNode::Function(
            "f",
            vec![TemplateNode::Variable("a"), TemplateNode::String("b")]
        ))
    );
    assert_eq!(position, 18);
    position = 10;
    assert_eq!(
        parse_function_arguments(input, chars, &mut position),
        Ok(vec![TemplateNode::Variable("a"), TemplateNode::String("b")])
    );
    assert_eq!(position, 16);
    position = 20;
    assert_eq!(
        raw_text(input, chars, "{{", &mut position),
        TemplateNode::RawText(" more")
    );
    assert_eq!(position, 25);
}

#[test]
fn nodes_of_spans_resolve_to_text() {
    let input = "Hi {{ f(n\u{e9}, 1, 2.5, \"s\") }}";
    let node = SintaxNode::Function {
        name_start: 6,
        name_end: 7,
        args: vec![
            SintaxNode::Variable { start: 8, end: 9 },
            SintaxNode::RawText { start: 9, end: 11 },
            SintaxNode::Number { start: 13, end: 14 },
            SintaxNode::Float { start: 16, end: 19 },
            SintaxNode::Str { start: 22, end: 23 },
        ],
    };
    assert_eq!(
        TemplateNode::from((input, node)),
        TemplateNode::Function(
            "f",
            vec![
                TemplateNode::Variable("n"),
                TemplateNode::RawText("\u{e9}"),
                TemplateNode::Number("1"),
                TemplateNode::Float("2.5"),
                TemplateNode::String("s"),
            ]
        )
    );
    assert_eq!(
        TemplateNode::from((input, SintaxNode::RawText { start: 0, end: 3 })),
        TemplateNode::RawText("Hi ")
    );
}

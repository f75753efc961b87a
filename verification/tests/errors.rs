use srtemplate::helper::arg::{from_args_1, from_args_16, from_args_2, from_args_3};
use srtemplate::helper::serialize::FromArgsError;
use srtemplate::parser::error::{
    get_line_from_offset, SyntaxError, SyntaxErrorKind, SyntaxErrorToken,
};
use srtemplate::parser::parser;
use srtemplate::prelude::validations::{arg_type, args_max_len, args_min_len, type_checked};
use srtemplate::prelude::FunctionError;
use srtemplate::Error;

fn args(values: &[&str]) -> Vec<String> {
    values.iter().map(|value| value.to_string()).collect()
}

fn syntax_error(template: &str) -> SyntaxError {
    match parser(template, "{{", "}}") {
        Err(Error::BadSyntax(error)) => error,
        other => panic!("expected a syntax error, got {other:?}"),
    }
}

#[test]
fn validations_hold_the_numbers() {
    let three = args(&["Some", "Other", "Again"]);
    assert_eq!(args_min_len(&three, 3), Ok(()));
    assert_eq!(args_min_len(&three, 4), Err(FunctionError::ArgumentsIncomplete(3, 4)));
    assert_eq!(args_min_len(&[], 0), Ok(()));
    assert_eq!(args_max_len(&three, 3), Ok(()));
    assert_eq!(args_max_len(&three, 2), Err(FunctionError::ArgumentsIncomplete(3, 2)));
    assert_eq!(
        arg_type::<u32>("3.5".to_string()),
        Err(FunctionError::InvalidType("3.5".to_string()))
    );
    assert_eq!(type_checked("x".to_string(), true), Ok(()));
    assert_eq!(
        type_checked("x".to_string(), false),
        Err(FunctionError::InvalidType("x".to_string()))
    );
}

#[test]
fn tuples_report_the_first_argument_in_the_way() {
    assert_eq!(from_args_1::<u8>(&args(&["7", "x"])), Ok((7,)));
    assert_eq!(
        from_args_1::<u8>(&[]),
        Err(FromArgsError::ArgumentNotExists("A".to_string(), 0))
    );
    assert_eq!(
        from_args_2::<String, i32>(&args(&["abc"])),
        Err(FromArgsError::ArgumentNotExists("B".to_string(), 1))
    );
    assert_eq!(
        from_args_2::<String, f32>(&args(&["abc", "2 75", "4.5"])),
        Err(FromArgsError::ParseFailed(1))
    );
    assert_eq!(
        from_args_3::<u8, u8, u8>(&args(&["x", "y"])),
        Err(FromArgsError::ParseFailed(0))
    );
    assert_eq!(
        from_args_3::<u8, u8, u8>(&args(&["1", "2"])),
        Err(FromArgsError::ArgumentNotExists("C".to_string(), 2))
    );
    let sixteen = args(&[
        "0", "1", "2", "3", "4", "5", "6", "7", "8", "9", "10", "11", "12", "13", "14", "15",
    ]);
    match from_args_16::<u8, u8, u8, u8, u8, u8, u8, u8, u8, u8, u8, u8, u8, u8, u8, u8>(&sixteen)
    {
        Ok(values) => {
            assert_eq!((values.0, values.1, values.2, values.3), (0, 1, 2, 3));
            assert_eq!((values.4, values.5, values.6, values.7), (4, 5, 6, 7));
            assert_eq!((values.8, values.9, values.10, values.11), (8, 9, 10, 11));
            assert_eq!((values.12, values.13, values.14, values.15), (12, 13, 14, 15));
        }
        Err(error) => panic!("{error:?}"),
    }
    assert_eq!(
        from_args_16::<u8, u8, u8, u8, u8, u8, u8, u8, u8, u8, u8, u8, u8, u8, u8, u8>(
            &sixteen[..15]
        )
        .err(),
        Some(FromArgsError::ArgumentNotExists("P".to_string(), 15))
    );
}

#[test]
fn lines_and_columns_count_from_zero() {
    let input = "ab\ncd\u{e9}f\n\ngh";
    assert_eq!(get_line_from_offset(input, 0), (0, 0, "ab".to_string()));
    assert_eq!(get_line_from_offset(input, 2), (0, 2, "ab".to_string()));
    assert_eq!(get_line_from_offset(input, 3), (1, 0, "cd\u{e9}f".to_string()));
    assert_eq!(get_line_from_offset(input, 6), (1, 3, "cd\u{e9}f".to_string()));
    assert_eq!(get_line_from_offset(input, 8), (1, 5, "cd\u{e9}f".to_string()));
    assert_eq!(get_line_from_offset(input, 9), (2, 0, String::new()));
    assert_eq!(get_line_from_offset(input, 10), (3, 0, "gh".to_string()));
    assert_eq!(get_line_from_offset(input, 12), (3, 2, "gh".to_string()));
    assert_eq!(get_line_from_offset("", 0), (0, 0, String::new()));
}

#[test]
fn each_kind_of_syntax_error() {
    let error = syntax_error("one\ntwo {{ f(\"open }}\nthree");
    assert_eq!(error.kind, SyntaxErrorKind::UnterminatedString);
    assert_eq!((error.at, error.line, error.column), (13, 1, 9));
    assert_eq!(error.context, "two {{ f(\"open }}");
    assert_eq!(error.help, "");

    let error = syntax_error("{{ call(a, b }}");
    assert_eq!(error.kind, SyntaxErrorKind::UnterminatedArgument);
    assert_eq!((error.at, error.line, error.column), (3, 0, 3));

    let error = syntax_error("x\n{{\n  f(1.2.3) }}");
    assert_eq!(error.kind, SyntaxErrorKind::FloatDotted);
    assert_eq!((error.at, error.line, error.column), (12, 2, 7));
    assert_eq!(error.context, "  f(1.2.3) }}");

    let error = syntax_error("{{ f(12 ) }}");
    assert_eq!(error.kind, SyntaxErrorKind::InvalidNumber);
    assert_eq!((error.at, error.line, error.column), (7, 0, 7));

    let error = syntax_error("{{ a b }}");
    assert_eq!(
        error.kind,
        SyntaxErrorKind::Expected(SyntaxErrorToken::String("}}".to_string()), SyntaxErrorToken::Eof)
    );
    assert_eq!((error.at, error.line, error.column), (5, 0, 5));
    assert_eq!(error.help, "help: add \"}}\"");

    let error = syntax_error("{{ \"text\" }}");
    assert_eq!(
        error.kind,
        SyntaxErrorKind::Expected(SyntaxErrorToken::String("}}".to_string()), SyntaxErrorToken::Eof)
    );
    assert_eq!(error.at, 3);
}

#[test]
fn errors_built_by_hand() {
    let error = SyntaxErrorKind::InvalidNumber.into_error("a\nbc", 3);
    assert_eq!(
        error,
        Error::BadSyntax(SyntaxError {
            kind: SyntaxErrorKind::InvalidNumber,
            at: 3,
            context: "bc".to_string(),
            line: 1,
            column: 1,
            help: String::new(),
        })
    );
    let error = SyntaxError::found_eof("a\nbc", 4, ")");
    assert_eq!(
        error,
        Error::BadSyntax(SyntaxError {
            kind: SyntaxErrorKind::Expected(
                SyntaxErrorToken::String(")".to_string()),
                SyntaxErrorToken::Eof
            ),
            at: 4,
            context: "bc".to_string(),
            line: 1,
            column: 2,
            help: "help: add \")\"".to_string(),
        })
    );
}

#[test]
fn errors_in_words() {
    assert_eq!(
        Error::VariableNotFound("x".to_string()).to_string(),
        "Variable not found: x"
    );
    assert_eq!(
        Error::FunctionNotImplemented("f".to_string()).to_string(),
        "Function not implemented: f"
    );
    assert_eq!(
        Error::Function(FunctionError::InvalidArgument("a".to_string())).to_string(),
        "Error Processing Function: Invalid Function Arguments a"
    );
    assert_eq!(
        FunctionError::InvalidType("a".to_string()).to_string(),
        "Invalid Function Argument Type for a"
    );
    assert_eq!(
        FunctionError::ConvertArgsFailed(FromArgsError::BadType("q".to_string())).to_string(),
        "Convert type from arguments failed: Invalid Type: q"
    );
    assert_eq!(
        FunctionError::ArgumentsIncomplete(0, 12).to_string(),
        "This function require 0 arguments, but found 12"
    );
    assert_eq!(
        FunctionError::RuntimeError("boom".to_string()).to_string(),
        "Error calling the function: boom"
    );
    assert_eq!(
        FromArgsError::ArgumentNotExists("B".to_string(), 1).to_string(),
        "Argument of type \"B\" not exists, argument index: 1"
    );
    assert_eq!(
        FromArgsError::ParseFailed(340).to_string(),
        "Parse Variable Failed in position: 340"
    );
    assert_eq!(SyntaxErrorToken::Eof.to_string(), "end of input");
    assert_eq!(SyntaxErrorToken::Char('\u{e9}').to_string(), "\"\u{e9}\"");
    assert_eq!(SyntaxErrorToken::String("}}".to_string()).to_string(), "\"}}\"");
    assert_eq!(
        SyntaxErrorKind::Expected(SyntaxErrorToken::Char(')'), SyntaxErrorToken::Eof).to_string(),
        "Expected \")\", but found end of input"
    );
    assert_eq!(
        SyntaxErrorKind::InvalidNumber.to_string(),
        "Invalid character in Number literal"
    );
    assert_eq!(
        SyntaxErrorKind::UnterminatedArgument.to_string(),
        "Unterminated function arguments"
    );
    assert_eq!(
        SyntaxErrorKind::UnterminatedString.to_string(),
        "Unterminated string literal"
    );
    assert_eq!(SyntaxErrorKind::FloatDotted.to_string(), "Expected one '.' in a float");
}

#[test]
fn syntax_error_as_it_is_shown() {
    let error = syntax_error("0\n1\n2\n3\n4\n5\n6\n7\n8\n9\nHi {{ name }");
    assert_eq!((error.line, error.column), (10, 11));
    assert_eq!(
        error.to_string(),
        "\x1b[1;91mSyntaxError:\x1b[0m Expected \"}}\", but found end of input\n \
         \x1b[1;34m-->\x1b[0m 10:11\n\
         \x1b[1;34m 10 | \x1b[0mHi {{ name }\n    \
         \u{20}\u{20}\u{20}\u{20}\u{20}\u{20}\u{20}\u{20}\u{20}\u{20}\u{20}\u{20}\u{20}\
         \x1b[1;91m^ help: add \"}}\"\x1b[0m\n"
    );
    assert_eq!(Error::BadSyntax(error.clone()).to_string(), error.to_string());
}

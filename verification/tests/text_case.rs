use srtemplate::helper::text_case::TextCase;

#[test]
fn test_from_str() {
    assert_eq!("lowercase".parse::<TextCase>(), Ok(TextCase::Lower));
    assert_eq!("UPPERCASE".parse::<TextCase>(), Ok(TextCase::Upper));
    assert_eq!("snake_case".parse::<TextCase>(), Ok(TextCase::Snake));
    assert_eq!("camelCase".parse::<TextCase>(), Ok(TextCase::Camel));
    assert_eq!("PascalCase".parse::<TextCase>(), Ok(TextCase::Pascal));
    assert_eq!("kebab-case".parse::<TextCase>(), Ok(TextCase::Kebab));
    assert_eq!(
        "SCREAMING_SNAKE".parse::<TextCase>(),
        Ok(TextCase::ScreamingSnake)
    );
    assert!("invalid_case".parse::<TextCase>().is_err());
}

#[test]
fn test_into() {
    let lower: TextCase = TextCase::from("lowercase");
    assert!(matches!(lower, TextCase::Lower));

    let snake: TextCase = TextCase::from("snakecase");
    assert!(matches!(snake, TextCase::Snake));

    let screaming_snake: TextCase = TextCase::from("screaming_snake");
    assert!(matches!(screaming_snake, TextCase::ScreamingSnake));
}

#[test]
fn names_of_the_cases() {
    for (name, case) in [
        ("lower", TextCase::Lower),
        ("Upper", TextCase::Upper),
        ("sentence", TextCase::Sentence),
        ("sentenceCase", TextCase::Sentence),
        ("snake", TextCase::Snake),
        ("CAMEL", TextCase::Camel),
        ("pascal case", TextCase::Pascal),
        ("kebab", TextCase::Kebab),
        ("kebabcase", TextCase::Kebab),
        ("screamingsnake", TextCase::ScreamingSnake),
        ("screaming-snake", TextCase::ScreamingSnake),
        ("Screaming Snake", TextCase::ScreamingSnake),
    ] {
        assert_eq!(TextCase::from_str(name), Ok(case), "{name}");
    }
    for name in ["", "case", "snake__case", "scream", "screaming", "lower case ", "snakes"] {
        assert_eq!(
            TextCase::from_str(name),
            Err(format!("Invalid text case: {name}")),
            "{name}"
        );
    }
}

#[test]
fn conversions_between_cases() {
    let input = "hello_world-example 123HTTPRequest";

    assert_eq!(
        TextCase::Lower.convert(input),
        "hello_world-example 123httprequest"
    );
    assert_eq!(
        TextCase::Upper.convert(input),
        "HELLO_WORLD-EXAMPLE 123HTTPREQUEST"
    );
    assert_eq!(
        TextCase::Snake.convert(input),
        "hello_world_example_123_http_request"
    );
    assert_eq!(
        TextCase::Camel.convert(input),
        "helloWorldExample123HttpRequest"
    );
    assert_eq!(
        TextCase::Pascal.convert(input),
        "HelloWorldExample123HttpRequest"
    );
    assert_eq!(
        TextCase::Kebab.convert(input),
        "hello-world-example-123-http-request"
    );
    assert_eq!(
        TextCase::ScreamingSnake.convert(input),
        "HELLO_WORLD_EXAMPLE_123_HTTP_REQUEST"
    );
    assert_eq!(TextCase::Sentence.convert(input), "");
}

#[test]
fn words_of_a_name() {
    let words = |text: &str| TextCase::split_into_words(text);
    assert_eq!(words(""), Vec::<String>::new());
    assert_eq!(words("  --  "), Vec::<String>::new());
    assert_eq!(words("last_name"), vec!["last", "name"]);
    assert_eq!(words("lastName"), vec!["last", "Name"]);
    assert_eq!(words("HTTPRequest2Go"), vec!["HTTP", "Request2", "Go"]);
    assert_eq!(words("ID"), vec!["ID"]);
    assert_eq!(words("Id"), vec!["Id"]);
    assert_eq!(words("\u{c9}t\u{e9} \u{c9}COLEs"), vec!["\u{c9}t\u{e9}", "\u{c9}COL", "Es"]);
    assert_eq!(words("a1B2c"), vec!["a1", "B2c"]);
    assert_eq!(TextCase::capitalize(""), "");
    assert_eq!(TextCase::capitalize("\u{df}A\u{c9}"), "SSa\u{e9}");
    assert_eq!(TextCase::Camel.convert("\u{c9}COLE normale"), "\u{e9}coleNormale");
    assert_eq!(
        TextCase::Pascal.process_words(vec!["one".to_string(), "TWO".to_string()]),
        "OneTwo"
    );
    assert_eq!(TextCase::Snake.process_words(Vec::new()), "");
    assert_eq!(TextCase::Camel.process_words(Vec::new()), "");
    assert_eq!(TextCase::Lower.process_words(vec!["x".to_string()]), "");
}

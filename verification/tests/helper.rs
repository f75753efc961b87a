use srtemplate::helper::arg::{from_args_2, from_args_3};

#[test]
fn simple_parse_args() {
    let args = vec!["abc".to_string(), "54".to_string(), "4.5".to_string()];

    let a = from_args_2::<String, u8>(&args);

    assert!(a.is_ok());
}

#[test]
fn bad_parse_args() {
    let args = vec!["abc".to_string(), "2 75".to_string(), "4.5".to_string()];

    let a = from_args_2::<String, f32>(&args);

    assert!(a.is_err());
}

#[test]
fn incomplete_parse_args() {
    let args = vec!["abc".to_string()];

    let a = from_args_2::<String, i32>(&args);

    println!("{a:?}");

    assert!(a.is_err());
}

#[test]
fn complete_parse_args() {
    let args = vec!["abc".to_string(), "54".to_string(), "4.5".to_string()];

    let a = from_args_3::<String, i32, f64>(&args);

    assert!(a.is_ok());

    let (a, b, c) = a.unwrap();

    assert_eq!(a, "abc".to_string());
    assert_eq!(b, 54i32);
    assert_eq!(c, 4.5f64);
}

use srtemplate::prelude::validations::{arg_type, args_max_len, args_min_len};

#[test]
fn test_arg_min_len() {
    let args = vec!["Some".to_string(), "Other".to_string(), "Again".to_string()];

    assert!(args_min_len(&args, 2).is_ok());
}

#[test]
fn test_arg_min_err_len() {
    let args = vec!["Some".to_string(), "Other".to_string(), "Again".to_string()];

    assert!(args_min_len(&args, 10).is_err());
}

#[test]
fn test_arg_max_len() {
    let args = vec!["Some".to_string(), "Other".to_string(), "Again".to_string()];

    assert!(args_max_len(&args, 3).is_ok());
}

#[test]
fn test_arg_max_out_len() {
    let args = vec!["Some".to_string(), "Other".to_string(), "Again".to_string()];

    assert!(args_max_len(&args, 1).is_err());
}

#[test]
fn test_arg_type() {
    assert!(arg_type::<u32>("54".to_string()).is_ok());
    assert!(arg_type::<f32>("3.5".to_string()).is_ok());
    assert!(arg_type::<i32>("-54".to_string()).is_ok());
    assert!(arg_type::<u32>("3.5".to_string()).is_err());
    assert!(arg_type::<u32>("-54".to_string()).is_err());
}

#[test]
fn validations_test_arg_min_len() {
    let args = vec!["Some".to_string(), "Other".to_string(), "Again".to_string()];

    assert!(args_min_len(&args, 2).is_ok());
}

#[test]
fn validations_test_arg_min_err_len() {
    let args = vec!["Some".to_string(), "Other".to_string(), "Again".to_string()];

    assert!(args_min_len(&args, 10).is_err());
}

#[test]
fn validations_test_arg_max_len() {
    let args = vec!["Some".to_string(), "Other".to_string(), "Again".to_string()];

    assert!(args_max_len(&args, 3).is_ok());
}

#[test]
fn validations_test_arg_max_out_len() {
    let args = vec!["Some".to_string(), "Other".to_string(), "Again".to_string()];

    assert!(args_max_len(&args, 1).is_err());
}

#[test]
fn validations_test_arg_type() {
    assert!(arg_type::<u32>("54".to_string()).is_ok());
    assert!(arg_type::<f32>("3.5".to_string()).is_ok());
    assert!(arg_type::<i32>("-54".to_string()).is_ok());
    assert!(arg_type::<u32>("3.5".to_string()).is_err());
    assert!(arg_type::<u32>("-54".to_string()).is_err());
}

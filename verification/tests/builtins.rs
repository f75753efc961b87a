use srtemplate::builtin::math::{
    add_i128, add_i8, add_u128, add_u8, div_i32, div_u16, mul_i64, mul_u32, sub_i16, sub_i8,
    sub_u64,
};
use srtemplate::builtin::text::{to_lower, to_upper, trim};
use srtemplate::builtin::to_typed_args;
use srtemplate::function::FunctionError;
use srtemplate::helper::serialize::{FromArgs, FromArgsError, FromArgsResult};

fn args(values: &[&str]) -> Vec<String> {
    values.iter().map(|value| value.to_string()).collect()
}

fn overflow(text: &str) -> Result<String, FunctionError> {
    Err(FunctionError::RuntimeError(text.to_string()))
}

#[test]
fn text_functions_join_with_one_space() {
    assert_eq!(to_lower(&args(&["HeLLo", "WORLD"])), Ok("hello world".to_string()));
    assert_eq!(to_upper(&args(&["HeLLo", "stra\u{df}e"])), Ok("HELLO STRASSE".to_string()));
    assert_eq!(
        trim(&args(&["  a  ", "\t\u{a0}b c\n", "", "\u{2003}"])),
        Ok("a b c  ".to_string())
    );
    assert_eq!(to_lower(&args(&["One"])), Ok("one".to_string()));
}

#[test]
fn text_functions_ask_for_an_argument() {
    assert_eq!(to_lower(&[]), Err(FunctionError::ArgumentsIncomplete(0, 1)));
    assert_eq!(to_upper(&[]), Err(FunctionError::ArgumentsIncomplete(0, 1)));
    assert_eq!(trim(&[]), Err(FunctionError::ArgumentsIncomplete(0, 1)));
}

#[test]
fn sums_and_differences() {
    assert_eq!(add_u8(&args(&["1", "2", "3"])), Ok("6".to_string()));
    assert_eq!(add_u8(&args(&["+200", "055"])), Ok("255".to_string()));
    assert_eq!(add_u8(&[]), Ok("0".to_string()));
    assert_eq!(add_i8(&args(&["-128", "127", "+1"])), Ok("0".to_string()));
    assert_eq!(sub_i8(&args(&["100", "28"])), Ok("-128".to_string()));
    assert_eq!(sub_i16(&args(&["-5", "3"])), Ok("2".to_string()));
    assert_eq!(sub_u64(&args(&["0", "0"])), Ok("0".to_string()));
    assert_eq!(
        add_u128(&args(&["340282366920938463463374607431768211454", "1"])),
        Ok("340282366920938463463374607431768211455".to_string())
    );
    assert_eq!(
        add_i128(&args(&["-170141183460469231731687303715884105728"])),
        Ok("-170141183460469231731687303715884105728".to_string())
    );
    assert_eq!(
        add_i128(&args(&["170141183460469231731687303715884105727", "-0"])),
        Ok("170141183460469231731687303715884105727".to_string())
    );
}

#[test]
fn products_and_quotients_start_from_zero() {
    assert_eq!(mul_u32(&args(&["7", "6"])), Ok("0".to_string()));
    assert_eq!(mul_i64(&args(&["-7"])), Ok("0".to_string()));
    assert_eq!(div_u16(&args(&["4", "2"])), Ok("0".to_string()));
    assert_eq!(div_i32(&args(&["-4"])), Ok("0".to_string()));
    assert_eq!(div_i32(&[]), Ok("0".to_string()));
}

#[test]
fn steps_out_of_range_are_errors() {
    assert_eq!(add_u8(&args(&["200", "56"])), overflow("attempt to add with overflow"));
    assert_eq!(add_i8(&args(&["127", "1"])), overflow("attempt to add with overflow"));
    assert_eq!(sub_u64(&args(&["1"])), overflow("attempt to subtract with overflow"));
    assert_eq!(sub_i8(&args(&["100", "29"])), overflow("attempt to subtract with overflow"));
    assert_eq!(sub_i8(&args(&["-128"])), overflow("attempt to subtract with overflow"));
    assert_eq!(div_u16(&args(&["4", "0"])), overflow("attempt to divide by zero"));
    assert_eq!(div_i32(&args(&["0"])), overflow("attempt to divide by zero"));
    assert_eq!(
        add_u128(&args(&["340282366920938463463374607431768211455", "1"])),
        overflow("attempt to add with overflow")
    );
}

#[test]
fn arguments_that_are_no_integers_of_the_type_are_errors() {
    for bad in ["", "+", "-", "256", "-1", "-0", "1.0", " 1", "1 ", "0x10", "1_0", "\u{661}", "++1"] {
        assert_eq!(
            add_u8(&args(&["1", bad, "x"])),
            Err(FunctionError::InvalidType(bad.to_string())),
            "{bad:?}"
        );
    }
    for bad in ["", "+", "-", "128", "-129", "--1", "+-1", "1e1"] {
        assert_eq!(
            add_i8(&args(&[bad])),
            Err(FunctionError::InvalidType(bad.to_string())),
            "{bad:?}"
        );
    }
    assert_eq!(
        add_u8(&args(&["200", "100", "x"])),
        Err(FunctionError::InvalidType("x".to_string()))
    );
    assert_eq!(
        add_u128(&args(&["340282366920938463463374607431768211456"])),
        Err(FunctionError::InvalidType("340282366920938463463374607431768211456".to_string()))
    );
    assert_eq!(
        add_i128(&args(&["-170141183460469231731687303715884105729"])),
        Err(FunctionError::InvalidType("-170141183460469231731687303715884105729".to_string()))
    );
}

#[test]
fn integers_are_read_as_std_reads_them() {
    for text in [
        "0", "007", "+7", "-7", "-0", "+0", "255", "256", "-128", "-129", "127", "128", "", "+",
        "-", "12a", "a12", "1-2", "99999999999999999999999999999999999999999999",
    ] {
        assert_eq!(
            add_u8(&args(&[text])).is_ok(),
            text.parse::<u8>().is_ok(),
            "u8 {text:?}"
        );
        assert_eq!(
            add_i8(&args(&[text])).is_ok(),
            text.parse::<i8>().is_ok(),
            "i8 {text:?}"
        );
        assert_eq!(
            add_u128(&args(&[text])).is_ok(),
            text.parse::<u128>().is_ok(),
            "u128 {text:?}"
        );
        assert_eq!(
            add_i128(&args(&[text])).is_ok(),
            text.parse::<i128>().is_ok(),
            "i128 {text:?}"
        );
        if let Ok(value) = text.parse::<i128>() {
            assert_eq!(add_i128(&args(&[text])), Ok(value.to_string()));
        }
    }
}

struct Pair {
    name: String,
    count: u8,
}

impl FromArgs for Pair {
    fn from_args(args: &[String]) -> FromArgsResult<Self> {
        if args.len() != 2 {
            return Err(FromArgsError::ArgumentNotExists("count".to_string(), args.len()));
        }
        let count = args[1]
            .parse::<u8>()
            .map_err(|_| FromArgsError::BadType(args[1].clone()))?;
        Ok(Pair { name: args[0].clone(), count })
    }
}

#[test]
fn typed_arguments_come_from_the_impl() {
    let pair = to_typed_args::<Pair>(&args(&["a", "7"])).unwrap();
    assert_eq!(pair.name, "a");
    assert_eq!(pair.count, 7);
    assert_eq!(
        to_typed_args::<Pair>(&args(&["a", "x"])).err(),
        Some(FunctionError::ConvertArgsFailed(FromArgsError::BadType("x".to_string())))
    );
    assert_eq!(
        to_typed_args::<Pair>(&args(&["a"])).err(),
        Some(FunctionError::ConvertArgsFailed(FromArgsError::ArgumentNotExists(
            "count".to_string(),
            1
        )))
    );
}

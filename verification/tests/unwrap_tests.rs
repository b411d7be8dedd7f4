use unwrap_log::UnwrapErrors;
use unwrap_log::UnwrapLog;
use unwrap_log::UnwrapLogError;
use unwrap_log::unwrap_log_site;

#[test]
fn test_unwrap_log_option() {
    let option: Option<i32> = Some(5);
    let result: Result<i32, UnwrapErrors> =
        option.unwrap_log(String::from("Error message"), "unwrap_tests", 9);
    assert_eq!(result, Ok(5));
}

#[test]
fn test_unwrap_log_result() {
    let result: Result<i32, UnwrapErrors> = Ok(5);
    let test_result: Result<i32, UnwrapErrors> =
        result.unwrap_log(String::from("Error message"), "unwrap_tests", 17);
    assert_eq!(test_result, Ok(5));
}

#[test]
fn test_unwrap_log_error() {
    let error: Result<i32, UnwrapErrors> = Err(UnwrapErrors::Unwrap(UnwrapLogError {
        msg: String::from("Error message"),
    }));
    let test_result: Result<i32, UnwrapErrors> =
        error.unwrap_log(String::from("Error message"), "unwrap_tests", 27);
    assert_eq!(
        test_result,
        Err(UnwrapErrors::Unwrap(UnwrapLogError {
            msg: String::from("Error message"),
        }))
    );
}

#[test]
fn test_unwrap_log_none() {
    let option: Option<i32> = None;
    let result: Result<i32, UnwrapErrors> =
        option.unwrap_log(String::from("Value is None"), "unwrap_tests", 40);
    assert_eq!(
        result,
        Err(UnwrapErrors::Unwrap(UnwrapLogError {
            msg: String::from("Value is None"),
        }))
    );
}

#[test]
fn cause_is_logged_but_discarded() {
    let error: Result<i32, UnwrapErrors> =
        Err(UnwrapErrors::StaticStr(String::from("original cause")));
    let converted: Result<i32, UnwrapErrors> =
        error.unwrap_log(String::from("wrapper message"), "unwrap_tests", 50);
    assert_eq!(
        converted,
        Err(UnwrapErrors::Unwrap(UnwrapLogError {
            msg: String::from("wrapper message"),
        }))
    );
}

fn test_function() -> Result<i32, UnwrapLogError> {
    let option: Option<i32> = Some(5);
    let result = unwrap_log_site(option, String::from("Error message"), "unwrap_tests", 52)?;
    Ok(result)
}

fn test_fail_function() -> Result<i32, UnwrapLogError> {
    let option: Option<i32> = None;
    let result = unwrap_log_site(option, String::from("Error message"), "unwrap_tests", 58)?;
    Ok(result)
}

#[test]
fn test_unwrap_log_macro_option() {
    let result = test_function();
    assert!(result.is_ok());
    assert_eq!(result, Ok(5));
}

#[test]
fn test_unwrap_log_macro_option_fail() {
    let result = test_fail_function();
    assert!(result.is_err());
    assert_eq!(
        result,
        Err(UnwrapLogError {
            msg: String::from("Error message"),
        })
    );
}

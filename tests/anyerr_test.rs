//! Errors built directly from messages.

use okerr::{anyerr, context, message, wrap_err, Result};

#[derive(Debug)]
struct CustomError(String);

impl std::fmt::Display for CustomError {
    fn fmt(&self, f: &mut std::fmt::Formatter<'_>) -> std::fmt::Result {
        f.write_str(&format!("custom error: {}", self.0))
    }
}

impl std::error::Error for CustomError {}

#[test]
fn anyerr_macro_creates_error() {
    let error = anyerr("simple error");
    assert_eq!(error.to_string(), "simple error");
}

#[test]
fn anyerr_macro_with_format() {
    let value = 42;
    let error = anyerr(&format!("error with value: {}", value));
    assert_eq!(error.to_string(), "error with value: 42");
}

#[test]
fn anyerr_macro_with_multiple_args() {
    let a = 10;
    let b = 20;
    let error = anyerr(&format!("values: {} and {}", a, b));
    assert_eq!(error.to_string(), "values: 10 and 20");
}

#[test]
fn anyerr_macro_with_custom_error() {
    let custom = CustomError("test".to_string());
    let error = wrap_err::<(), CustomError>(Err(custom)).unwrap_err();
    assert!(error.to_string().contains("custom error: test"));
}

#[test]
fn anyerr_macro_in_result_context() {
    fn operation(should_fail: bool) -> Result<i32> {
        if should_fail {
            Err(anyerr("operation failed"))
        } else {
            Ok(42)
        }
    }

    let result = operation(false);
    assert!(result.is_ok());
    assert_eq!(result.unwrap(), 42);

    let result = operation(true);
    assert!(result.is_err());
    assert_eq!(result.unwrap_err().to_string(), "operation failed");
}

#[test]
fn anyerr_macro_converts_to_anyhow_error() {
    let error = anyerr("test");
    let _: okerr::Error = error;
}

#[test]
fn anyerr_macro_with_named_args() {
    let name = "Alice";
    let age = 30;
    let error = anyerr(&format!("User {name} is {age} years old", name = name, age = age));
    assert_eq!(error.to_string(), "User Alice is 30 years old");
}

#[test]
fn anyerr_vs_err_macro() {
    let anyerr_result = anyerr("using anyerr");

    let err_result: Result<()> = okerr::err("using err");

    let _: okerr::Error = anyerr_result;

    assert!(err_result.is_err());
}

#[test]
fn anyerr_macro_with_io_error() {
    let io_err = std::io::Error::new(std::io::ErrorKind::NotFound, "file.txt");
    let error = wrap_err::<(), std::io::Error>(Err(io_err)).unwrap_err();
    assert!(error.to_string().contains("file.txt"));
}

#[test]
fn anyerr_macro_chaining() {
    fn inner() -> std::io::Result<()> {
        Err(std::io::Error::new(std::io::ErrorKind::NotFound, "inner"))
    }

    fn outer() -> Result<()> {
        context(wrap_err(inner()), "outer context")?;
        Ok(())
    }

    let result = outer();
    assert!(result.is_err());
    let err_msg = result.unwrap_err().to_string();
    assert!(err_msg.contains("outer context"));
}

#[test]
fn anyerr_is_exactly_anyhow() {
    let anyerr_error = anyerr("test message");
    let anyhow_error = okerr::Error::msg("test message");

    assert_eq!(anyerr_error.to_string(), anyhow_error.to_string());
}

#[test]
fn anyerr_with_context() {
    let error = context::<()>(Err(anyerr("base error")), "additional context").unwrap_err();
    let chain: Vec<_> = error.chain().map(|e| e.to_string()).collect();
    assert!(chain.len() >= 1);
    assert_eq!(chain, vec!["additional context".to_string(), "base error".to_string()]);
}

#[test]
fn anyerr_macro_no_conflict_with_variable() {
    let anyerr_text = "this is a variable";

    let error_result = okerr::anyerr("this is from the macro");

    assert_eq!(anyerr_text, "this is a variable");

    assert_eq!(error_result.to_string(), "this is from the macro");
}

#[test]
fn anyerr_message_reads_back() {
    let e = anyerr("read back");
    assert_eq!(message(&e), "read back");
    assert_eq!(okerr::messages(&e).len(), 1);
}

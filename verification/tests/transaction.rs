use bft_core::transaction::{
    from_bytes, into_bytes, panic_description, status_as_u16, ExecutionError, PanicPayload,
    TransactionError, TransactionErrorType, TransactionResult,
};

#[test]
fn execution_error_new() {
    let codes = [0u8, 1, 100, 255];
    for &code in &codes {
        let error = ExecutionError::new(code);
        assert_eq!(code, error.code);
        assert_eq!(None, error.description);
    }
}

#[test]
fn execution_error_with_description() {
    let values = [(0u8, ""), (1, "test"), (100, "error"), (255, "hello")];
    for value in &values {
        let error = ExecutionError::with_description(value.0, value.1);
        assert_eq!(value.0, error.code);
        assert_eq!(value.1, error.description.unwrap());
    }
}

#[test]
fn transaction_error_new() {
    let values = [
        (TransactionErrorType::Panic, None),
        (TransactionErrorType::Panic, Some("panic")),
        (TransactionErrorType::Code(0), None),
        (TransactionErrorType::Code(1), Some("")),
        (TransactionErrorType::Code(100), None),
        (TransactionErrorType::Code(255), Some("error description")),
    ];
    for value in &values {
        let error = TransactionError::new(value.0, value.1.map(str::to_owned));
        assert_eq!(value.0, error.error_type());
        assert_eq!(value.1.as_ref().map(|d| d.as_ref()), error.description());
    }
}

#[test]
fn errors_conversion() {
    let execution_errors = [
        ExecutionError::new(0),
        ExecutionError::new(255),
        ExecutionError::with_description(1, ""),
        ExecutionError::with_description(1, "Terrible failure"),
    ];
    for execution_error in &execution_errors {
        let code = execution_error.code;
        let description = execution_error.description.clone();
        let transaction_error: TransactionError =
            ExecutionError { code, description: description.clone() }.into();
        assert_eq!(description, transaction_error.description);
        match transaction_error.error_type {
            TransactionErrorType::Code(c) => assert_eq!(code, c),
            _ => panic!("unexpected transaction error type"),
        }
    }
}

#[test]
fn status_values() {
    assert_eq!(status_as_u16(&Ok(())), 256);
    assert_eq!(status_as_u16(&Err(TransactionError::panic(None))), 257);
    assert_eq!(status_as_u16(&Err(TransactionError::code(0, None))), 0);
    assert_eq!(status_as_u16(&Err(TransactionError::code(42, Some("x".to_owned())))), 42);
    assert_eq!(status_as_u16(&Err(TransactionError::code(255, None))), 255);
}

#[test]
fn transaction_results_round_trip() {
    let results: Vec<TransactionResult> = vec![
        Ok(()),
        Err(TransactionError::panic(None)),
        Err(TransactionError::panic(Some("".to_owned()))),
        Err(TransactionError::panic(Some("Panic error description".to_owned()))),
        Err(TransactionError::code(0, None)),
        Err(TransactionError::code(0, Some("Some error description".to_owned()))),
        Err(TransactionError::code(1, None)),
        Err(TransactionError::code(1, Some("".to_owned()))),
        Err(TransactionError::code(100, None)),
        Err(TransactionError::code(100, Some("just error".to_owned()))),
        Err(TransactionError::code(254, None)),
        Err(TransactionError::code(254, Some("e".to_owned()))),
        Err(TransactionError::code(255, None)),
        Err(TransactionError::code(255, Some("(Not) really long error description".to_owned()))),
        Err(TransactionError::code(7, Some("\u{00e9}\u{6f22}\u{1f600}".to_owned()))),
    ];
    for result in &results {
        let bytes = into_bytes(result);
        let new_result = from_bytes(&bytes);
        match (result, &new_result) {
            (Ok(()), Ok(())) => {},
            (Err(a), Err(b)) => {
                assert_eq!(a.error_type, b.error_type);
                assert_eq!(a.description, b.description);
            },
            _ => panic!("result and its decoding disagree"),
        }
    }
}

#[test]
fn encoding_layout() {
    // status as two little-endian bytes, then the description flag
    let bytes = into_bytes(&Ok(()));
    assert_eq!(bytes, vec![0, 1, 0]);
    let bytes = into_bytes(&Err(TransactionError::panic(None)));
    assert_eq!(bytes, vec![1, 1, 0]);
    let bytes = into_bytes(&Err(TransactionError::code(5, Some("ab".to_owned()))));
    assert_eq!(bytes, vec![5, 0, 1, 0x61, 0x62]);
}

#[test]
fn str_panic() {
    let payload = PanicPayload::StaticText("Static string (&str)".to_owned());
    assert_eq!(Some("Static string (&str)".to_owned()), panic_description(&payload));
}

#[test]
fn string_panic() {
    let payload = PanicPayload::OwnedText("Owned string (String)".to_owned());
    assert_eq!(Some("Owned string (String)".to_owned()), panic_description(&payload));
}

#[test]
fn box_error_panic() {
    let payload = PanicPayload::BoxedError("invalid digit found in string".to_owned());
    assert_eq!(Some("invalid digit found in string".to_owned()), panic_description(&payload));
}

#[test]
fn unknown_panic() {
    assert_eq!(None, panic_description(&PanicPayload::Opaque));
    let error = TransactionError::from_panic(&PanicPayload::Opaque);
    assert_eq!(TransactionErrorType::Panic, error.error_type());
    assert_eq!(None, error.description());
}

#[test]
fn message_text() {
    let e = TransactionError::panic(None);
    assert_eq!(e.message(), "Panic during execution");
    let e = TransactionError::panic(Some("boom".to_owned()));
    assert_eq!(e.message(), "Panic during execution description: boom");
    let e = TransactionError::code(0, None);
    assert_eq!(e.message(), "Error code: 0");
    let e = TransactionError::code(42, None);
    assert_eq!(e.message(), "Error code: 42");
    let e = TransactionError::code(255, Some("bad".to_owned()));
    assert_eq!(e.message(), "Error code: 255 description: bad");
    let e = TransactionError::code(105, None);
    assert_eq!(e.message(), "Error code: 105");
}

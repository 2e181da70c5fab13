use crossbeam_channel::{RecvError, SendError};
use greengrass_core::error::{
    try_clean, GGError, GGE_INTERNAL_FAILURE, GGE_INVALID_PARAMETER, GGE_INVALID_STATE,
    GGE_OUT_OF_MEMORY, GGE_SUCCESS, GGE_TERMINATE,
};
use greengrass_core::handler::LambdaContext;
use greengrass_core::request::{GGRequestResponse, ResponseKind};
use std::cell::Cell;

#[test]
fn success_code_is_ok() {
    assert!(GGError::from_code(GGE_SUCCESS).is_ok());
    assert!(GGError::from_code(0).is_ok());
}

#[test]
fn defined_codes_map_to_their_variants() {
    assert!(matches!(GGError::from_code(GGE_OUT_OF_MEMORY), Err(GGError::OutOfMemory)));
    assert!(matches!(GGError::from_code(GGE_INVALID_PARAMETER), Err(GGError::InvalidParameter)));
    assert!(matches!(GGError::from_code(GGE_INVALID_STATE), Err(GGError::InvalidState)));
    assert!(matches!(GGError::from_code(GGE_INTERNAL_FAILURE), Err(GGError::InternalFailure)));
    assert!(matches!(GGError::from_code(GGE_TERMINATE), Err(GGError::Terminate)));
    assert!(matches!(GGError::from_code(1), Err(GGError::OutOfMemory)));
    assert!(matches!(GGError::from_code(5), Err(GGError::Terminate)));
}

#[test]
fn unknown_codes_keep_their_value() {
    assert!(matches!(GGError::from_code(6), Err(GGError::Unknown(6))));
    assert!(matches!(GGError::from_code(0x7FFF_FFFF), Err(GGError::Unknown(0x7FFF_FFFF))));
    assert!(matches!(GGError::from_code(u32::MAX), Err(GGError::Unknown(u32::MAX))));
}

#[test]
fn messages_of_native_errors() {
    assert_eq!(GGError::OutOfMemory.message(), "Process out of memory");
    assert_eq!(GGError::InvalidParameter.message(), "Invalid input Parameter");
    assert_eq!(GGError::InvalidState.message(), "Invalid State");
    assert_eq!(GGError::InternalFailure.message(), "Internal Failure");
    assert_eq!(GGError::Terminate.message(), "Remote signal to terminate received");
}

#[test]
fn message_of_unknown_code_has_the_number() {
    assert_eq!(GGError::Unknown(42).message(), "Unknown error code: 42");
    assert_eq!(GGError::Unknown(0).message(), "Unknown error code: 0");
    assert_eq!(
        GGError::Unknown(u32::MAX).message(),
        "Unknown error code: 4294967295"
    );
}

#[test]
fn message_of_large_unknown_codes() {
    assert_eq!(GGError::Unknown(10).message(), "Unknown error code: 10");
    assert_eq!(GGError::Unknown(1000).message(), "Unknown error code: 1000");
    assert_eq!(GGError::Unknown(9).message(), "Unknown error code: 9");
}

#[test]
fn message_of_nul_error() {
    assert_eq!(
        GGError::NulError(3, b"ab\0c".to_vec()).message(),
        "nul byte found in provided data at position: 3"
    );
}

#[test]
fn message_of_strings() {
    assert_eq!(GGError::Unauthorized("no access".to_owned()).message(), "no access");
}

#[test]
fn message_of_channel_errors() {
    let ctx = LambdaContext::new("a".to_owned(), "b".to_owned(), vec![]);
    assert_eq!(
        GGError::from(SendError(ctx)).message(),
        "Error sending to handler channel: sending on a disconnected channel"
    );
    assert_eq!(
        GGError::from(RecvError).message(),
        "Error receving from handler channel: receiving on an empty and disconnected channel"
    );
}

#[test]
fn send_error_keeps_the_context() {
    let ctx = LambdaContext::new("a".to_owned(), "b".to_owned(), vec![4]);
    match GGError::from(SendError(ctx.clone())) {
        GGError::HandlerChannelSendError(SendError(back)) => assert_eq!(back, ctx),
        _ => panic!("expected a send error"),
    }
}

#[test]
fn json_error_converts() {
    let e = serde_json::from_str::<serde_json::Value>("{").unwrap_err();
    let err = GGError::from(e);
    assert!(matches!(err, GGError::JsonError(_)));
    let text = err.message();
    assert!(text.starts_with("Error parsing response: "));
    assert!(text.len() > "Error parsing response: ".len());
}

#[test]
fn utf8_error_converts() {
    let e = String::from_utf8(vec![0x61, 0xff]).unwrap_err();
    let err = GGError::from(e);
    assert_eq!(
        err.message(),
        "Invalid String: invalid utf-8 sequence of 1 bytes from index 1"
    );
    match err {
        GGError::InvalidString(cause) => assert_eq!(cause.into_bytes(), vec![0x61, 0xff]),
        _ => panic!("expected an invalid string"),
    }
}

#[test]
fn response_kinds() {
    let kind = |status: u16| {
        GGRequestResponse { status, message: String::new() }.kind()
    };
    assert_eq!(kind(200), ResponseKind::Success);
    assert_eq!(kind(404), ResponseKind::NotFound);
    assert_eq!(kind(401), ResponseKind::Unauthorized);
    assert_eq!(kind(403), ResponseKind::Unauthorized);
    assert_eq!(kind(400), ResponseKind::Error);
    assert_eq!(kind(500), ResponseKind::Error);
    assert_eq!(kind(399), ResponseKind::Success);
}

#[test]
fn response_errors() {
    let resp = |status: u16| GGRequestResponse { status, message: "m".to_owned() };
    assert!(resp(200).into_error().is_none());
    assert!(resp(404).into_error().is_none());
    match resp(401).into_error() {
        Some(GGError::Unauthorized(m)) => assert_eq!(m, "m"),
        _ => panic!("expected unauthorized"),
    }
    match resp(500).into_error() {
        Some(e @ GGError::ErrorResponse(_)) => {
            assert_eq!(
                e.message(),
                "Green responded with error: GGRequestResponse { status: 500, message: \"m\" }"
            )
        }
        _ => panic!("expected an error response"),
    }
}

#[test]
fn clean_closes_on_failure_and_keeps_the_error() {
    let closed = Cell::new(0);
    let cleaned = try_clean::<u8, _>(Err(GGError::InvalidParameter), || {
        closed.set(closed.get() + 1);
        GGE_SUCCESS
    });
    assert_eq!(closed.get(), 1);
    assert!(matches!(cleaned.result, Err(GGError::InvalidParameter)));
    assert!(cleaned.close_failure.is_none());
}

#[test]
fn clean_surfaces_close_failure() {
    let closed = Cell::new(0);
    let cleaned = try_clean::<u8, _>(Err(GGError::InvalidParameter), || {
        closed.set(closed.get() + 1);
        GGE_INTERNAL_FAILURE
    });
    assert_eq!(closed.get(), 1);
    assert!(matches!(cleaned.result, Err(GGError::InvalidParameter)));
    assert!(matches!(cleaned.close_failure, Some(GGError::InternalFailure)));
}

#[test]
fn clean_leaves_success_open() {
    let closed = Cell::new(0);
    let cleaned = try_clean(Ok(5u8), || {
        closed.set(closed.get() + 1);
        GGE_SUCCESS
    });
    assert_eq!(closed.get(), 0);
    assert!(matches!(cleaned.result, Ok(5)));
    assert!(cleaned.close_failure.is_none());
}

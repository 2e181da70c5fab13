use greengrass_core::error::{
    GGError, GGE_INTERNAL_FAILURE, GGE_OUT_OF_MEMORY, GGE_SUCCESS, GGE_TERMINATE,
};
use greengrass_core::read::{MessageReader, ReadStep, BUFFER_SIZE};

/// Feeds each `(status, chunk)` in turn, as the native read call would hand them out.
fn run(reads: &[(u32, &[u8])]) -> Option<Result<Vec<u8>, GGError>> {
    let mut reader = MessageReader::new();
    for (status, chunk) in reads {
        match reader.feed(*status, chunk) {
            ReadStep::More(next) => reader = next,
            ReadStep::Done(message) => return Some(Ok(message)),
            ReadStep::Failed(e) => return Some(Err(e)),
        }
    }
    None
}

#[test]
fn buffer_size_is_one_hundred() {
    assert_eq!(BUFFER_SIZE, 100);
}

#[test]
fn chunks_are_joined_in_order() {
    let a = [7u8; 100];
    let b = [9u8; 100];
    let c = [1u8, 2, 3];
    let reads: Vec<(u32, &[u8])> = vec![
        (GGE_SUCCESS, &a[..]),
        (GGE_SUCCESS, &b[..]),
        (GGE_SUCCESS, &c[..]),
        (GGE_SUCCESS, &[][..]),
    ];
    let message = run(&reads).unwrap().unwrap();
    assert_eq!(message.len(), 203);
    let mut expected = a.to_vec();
    expected.extend_from_slice(&b);
    expected.extend_from_slice(&c);
    assert_eq!(message, expected);
}

#[test]
fn empty_message() {
    let reads: Vec<(u32, &[u8])> = vec![(GGE_SUCCESS, &[][..])];
    assert_eq!(run(&reads).unwrap().unwrap(), Vec::<u8>::new());
}

#[test]
fn message_incomplete_until_empty_read() {
    let reads: Vec<(u32, &[u8])> = vec![(GGE_SUCCESS, &b"abc"[..])];
    assert!(run(&reads).is_none());
}

#[test]
fn failure_after_chunks_discards_them() {
    let reads: Vec<(u32, &[u8])> = vec![
        (GGE_SUCCESS, &b"abc"[..]),
        (GGE_SUCCESS, &b"def"[..]),
        (GGE_OUT_OF_MEMORY, &[][..]),
        (GGE_SUCCESS, &[][..]),
    ];
    assert!(matches!(run(&reads), Some(Err(GGError::OutOfMemory))));
}

#[test]
fn failure_on_first_read() {
    let reads: Vec<(u32, &[u8])> = vec![(GGE_TERMINATE, &b"ignored"[..])];
    assert!(matches!(run(&reads), Some(Err(GGError::Terminate))));
    let reads: Vec<(u32, &[u8])> = vec![(GGE_INTERNAL_FAILURE, &[][..])];
    assert!(matches!(run(&reads), Some(Err(GGError::InternalFailure))));
}

#[test]
fn unknown_status_fails_read() {
    let reads: Vec<(u32, &[u8])> = vec![(GGE_SUCCESS, &b"x"[..]), (77, &b"y"[..])];
    assert!(matches!(run(&reads), Some(Err(GGError::Unknown(77)))));
}

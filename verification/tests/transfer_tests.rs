use soundcloud::{Error, TransferAction, TransferEvent, TransferState};

#[test]
fn test_redirect_is_followed_once() {
    let start = TransferState::AwaitingFirst;
    let (state, action) = soundcloud::transfer_step(
        start,
        TransferEvent::Headers {
            location: Some(String::from("https://cdn.example.net/audio/1")),
        },
    );
    match action {
        TransferAction::Follow { url } => assert_eq!(url, "https://cdn.example.net/audio/1"),
        other => panic!("expected a redirect follow, got {:?}", other),
    }

    // A second redirect in the chain is not followed: the body is read as-is.
    let (state, action) = soundcloud::transfer_step(
        state,
        TransferEvent::Headers {
            location: Some(String::from("https://cdn.example.net/audio/elsewhere")),
        },
    );
    assert!(matches!(action, TransferAction::ReadBody));
    assert!(matches!(state, TransferState::Streaming { written: 0 }));
}

#[test]
fn test_no_redirect_reads_body() {
    let (state, action) = soundcloud::transfer_step(
        TransferState::AwaitingFirst,
        TransferEvent::Headers { location: None },
    );
    assert!(matches!(action, TransferAction::ReadBody));
    assert!(matches!(state, TransferState::Streaming { written: 0 }));
}

#[test]
fn test_total_bytes_is_sum_of_chunks() {
    let mut state = TransferState::AwaitingFirst;
    let mut action;
    (state, _) = soundcloud::transfer_step(state, TransferEvent::Headers { location: None });
    for n in [3usize, 4, 5] {
        (state, action) = soundcloud::transfer_step(
            state,
            TransferEvent::ChunkWritten { result: Ok(n) },
        );
        assert!(matches!(action, TransferAction::Continue));
    }
    let (state, action) = soundcloud::transfer_step(state, TransferEvent::BodyEnd);
    assert!(matches!(action, TransferAction::Finish));
    match state {
        TransferState::Done { written } => assert_eq!(written, 12),
        other => panic!("expected a finished transfer, got {:?}", other),
    }
}

#[test]
fn test_sink_failure_stops_the_transfer() {
    let mut state = TransferState::AwaitingFirst;
    (state, _) = soundcloud::transfer_step(state, TransferEvent::Headers { location: None });
    (state, _) = soundcloud::transfer_step(
        state,
        TransferEvent::ChunkWritten { result: Ok(5) },
    );
    let (state, action) = soundcloud::transfer_step(
        state,
        TransferEvent::ChunkWritten {
            result: Err(String::from("disk full")),
        },
    );
    assert!(matches!(action, TransferAction::Fail));
    match &state {
        TransferState::Failed { error } => {
            assert_eq!(*error, Error::Io(String::from("disk full")))
        }
        other => panic!("expected a failed transfer, got {:?}", other),
    }

    // Whatever still arrives, a failed transfer asks for nothing further.
    let (state, action) = soundcloud::transfer_step(
        state,
        TransferEvent::ChunkWritten { result: Ok(9) },
    );
    assert!(matches!(action, TransferAction::Fail));
    assert!(matches!(state, TransferState::Failed { .. }));
}

#[test]
fn test_transport_failure() {
    let (state, action) = soundcloud::transfer_step(
        TransferState::AwaitingFirst,
        TransferEvent::TransportFailed {
            message: String::from("connection reset"),
        },
    );
    assert!(matches!(action, TransferAction::Fail));
    match state {
        TransferState::Failed { error } => {
            assert_eq!(error, Error::HttpError(String::from("connection reset")))
        }
        other => panic!("expected a failed transfer, got {:?}", other),
    }
}

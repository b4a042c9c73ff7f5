use episode_fetcher::error::{ChunkError, EpisodeError};
use episode_fetcher::fetch::{
    FetchAction, FetchEvent, FetchOutcome, FetchState, ProgressState, BAD_REQUEST,
};

fn response(status: u16, content_length: Option<&str>) -> FetchEvent {
    FetchEvent::Response { status, content_length: content_length.map(|t| t.to_string()) }
}

fn streaming(total: u64, written: u64, degraded: bool) -> FetchState {
    FetchState::AwaitingChunk { progress: ProgressState { total, written }, degraded }
}

#[test]
fn thousand_bytes_in_four_chunks_reach_the_total() {
    let mut state = FetchState::start();
    let mut bar: u64 = 0;
    let mut file: u64 = 0;
    let (next, action) = state.step(&response(200, Some("1000")));
    assert_eq!(action, FetchAction::OpenFile { total: 1000 });
    state = next;
    let (next, action) = state.step(&FetchEvent::FileReady);
    assert_eq!(action, FetchAction::AwaitChunk);
    state = next;
    for len in [250u64, 250, 250, 250] {
        let (next, action) = state.step(&FetchEvent::ChunkArrived { len });
        assert_eq!(action, FetchAction::WriteChunk);
        file += len;
        let (next, action) = next.step(&FetchEvent::WriteDone);
        assert_eq!(action, FetchAction::Advance { by: len });
        bar += len;
        state = next;
    }
    let (end, action) = state.step(&FetchEvent::StreamEnded);
    assert_eq!(action, FetchAction::Finish);
    assert_eq!(file, 1000);
    assert_eq!(bar, 1000);
    let progress = ProgressState { total: 1000, written: 1000 };
    assert!(progress.is_complete());
    assert_eq!(end, FetchState::Done(FetchOutcome::Completed { progress, degraded: false }));
    assert!(end.is_done());
}

#[test]
fn replay_of_uneven_chunks_adds_their_lengths() {
    let events = vec![
        response(200, Some("1000")),
        FetchEvent::FileReady,
        FetchEvent::ChunkArrived { len: 1 },
        FetchEvent::WriteDone,
        FetchEvent::ChunkArrived { len: 0 },
        FetchEvent::WriteDone,
        FetchEvent::ChunkArrived { len: 600 },
        FetchEvent::WriteDone,
        FetchEvent::ChunkArrived { len: 399 },
        FetchEvent::WriteDone,
        FetchEvent::StreamEnded,
    ];
    assert_eq!(
        FetchState::start().replay(&events),
        FetchState::Done(FetchOutcome::Completed {
            progress: ProgressState { total: 1000, written: 1000 },
            degraded: false,
        })
    );
    assert_eq!(FetchState::start().replay(&Vec::new()), FetchState::AwaitingResponse);
}

#[test]
fn bad_request_ends_the_episode_without_a_file() {
    assert_eq!(BAD_REQUEST, 400);
    let (state, action) = FetchState::start().step(&response(400, Some("1000")));
    assert_eq!(action, FetchAction::ReportBadRequest);
    assert_eq!(state, FetchState::Done(FetchOutcome::Failed(EpisodeError::BadRequest)));
    for event in [
        FetchEvent::FileReady,
        FetchEvent::ChunkArrived { len: 10 },
        FetchEvent::WriteDone,
        FetchEvent::StreamEnded,
        response(200, Some("1000")),
    ] {
        let (after, action) = state.step(&event);
        assert_eq!(action, FetchAction::Unexpected);
        assert_eq!(after, state);
    }
}

#[test]
fn missing_content_length_gives_the_episode_up() {
    let (state, action) = FetchState::start().step(&response(200, None));
    assert_eq!(action, FetchAction::ReportError(EpisodeError::MissingContentLength));
    assert_eq!(state, FetchState::Done(FetchOutcome::Failed(EpisodeError::MissingContentLength)));
}

#[test]
fn invalid_content_length_gives_the_episode_up() {
    for text in ["", "abc", "12 ", "-5", "18446744073709551616"] {
        let (state, action) = FetchState::start().step(&response(200, Some(text)));
        assert_eq!(action, FetchAction::ReportError(EpisodeError::InvalidContentLength));
        assert_eq!(state, FetchState::Done(FetchOutcome::Failed(EpisodeError::InvalidContentLength)));
    }
}

#[test]
fn failed_request_gives_the_episode_up() {
    let (state, action) = FetchState::start().step(&FetchEvent::RequestFailed);
    assert_eq!(action, FetchAction::ReportError(EpisodeError::RequestFailed));
    assert_eq!(state, FetchState::Done(FetchOutcome::Failed(EpisodeError::RequestFailed)));
}

#[test]
fn directory_and_file_failures_give_the_episode_up() {
    let opening = FetchState::AwaitingFile { total: 5 };
    let (state, action) = opening.step(&FetchEvent::DirectoryFailed);
    assert_eq!(action, FetchAction::ReportError(EpisodeError::DirectoryFailed));
    assert_eq!(state, FetchState::Done(FetchOutcome::Failed(EpisodeError::DirectoryFailed)));
    let (state, action) = opening.step(&FetchEvent::FileFailed);
    assert_eq!(action, FetchAction::ReportError(EpisodeError::FileFailed));
    assert_eq!(state, FetchState::Done(FetchOutcome::Failed(EpisodeError::FileFailed)));
}

#[test]
fn transport_error_mid_stream_keeps_the_stream_going() {
    let (state, action) = streaming(1000, 250, false).step(&FetchEvent::ChunkFailed);
    assert_eq!(action, FetchAction::ReportChunkError(ChunkError::Transport));
    assert_eq!(state, streaming(1000, 250, true));
    let (state, action) = state.step(&FetchEvent::ChunkArrived { len: 250 });
    assert_eq!(action, FetchAction::WriteChunk);
    let (state, action) = state.step(&FetchEvent::WriteDone);
    assert_eq!(action, FetchAction::Advance { by: 250 });
    assert_eq!(state, streaming(1000, 500, true));
    let (state, action) = state.step(&FetchEvent::StreamEnded);
    assert_eq!(action, FetchAction::Finish);
    assert_eq!(
        state,
        FetchState::Done(FetchOutcome::Completed {
            progress: ProgressState { total: 1000, written: 500 },
            degraded: true,
        })
    );
}

#[test]
fn write_error_does_not_advance_progress() {
    let (state, _) = streaming(1000, 100, false).step(&FetchEvent::ChunkArrived { len: 50 });
    assert_eq!(
        state,
        FetchState::AwaitingWrite {
            progress: ProgressState { total: 1000, written: 100 },
            degraded: false,
            pending: 50,
        }
    );
    let (state, action) = state.step(&FetchEvent::WriteFailed);
    assert_eq!(action, FetchAction::ReportChunkError(ChunkError::Write));
    assert_eq!(state, streaming(1000, 100, true));
}

#[test]
fn progress_count_stops_at_the_largest_number() {
    let progress = ProgressState { total: 10, written: u64::MAX - 1 };
    assert_eq!(progress.advance(1).written, u64::MAX);
    assert_eq!(progress.advance(5).written, u64::MAX);
    assert_eq!(progress.advance(5).total, 10);
    assert_eq!(ProgressState { total: 10, written: 3 }.advance(4).written, 7);
    assert!(!ProgressState { total: 10, written: 3 }.is_complete());
}

#[test]
fn events_out_of_place_change_nothing() {
    let cases = [
        (FetchState::AwaitingResponse, FetchEvent::FileReady),
        (FetchState::AwaitingResponse, FetchEvent::StreamEnded),
        (FetchState::AwaitingFile { total: 1 }, FetchEvent::ChunkArrived { len: 1 }),
        (streaming(1, 0, false), FetchEvent::WriteDone),
        (streaming(1, 0, false), FetchEvent::FileReady),
        (
            FetchState::AwaitingWrite {
                progress: ProgressState { total: 1, written: 0 },
                degraded: false,
                pending: 1,
            },
            FetchEvent::StreamEnded,
        ),
    ];
    for (state, event) in cases {
        let (after, action) = state.step(&event);
        assert_eq!(action, FetchAction::Unexpected);
        assert_eq!(after, state);
        assert!(!after.is_done());
    }
}

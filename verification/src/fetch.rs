//! The decisions of one episode's download. The caller does the work (the
//! request, the file, the chunks) and reports each result as an event; the
//! fetcher answers with the next thing to do and keeps the count of the
//! bytes written.

use crate::decimal::{decimal_u64, parse_decimal};
use crate::error::{ChunkError, EpisodeError};
use crate::header::HeaderValueExt;
use reqwest::header::HeaderValue;
use vstd::prelude::*;

verus! {

/// The status with which a server refuses a request as malformed.
pub const BAD_REQUEST: u16 = 400;

/// How far one download has come.
#[derive(Clone, Copy, Debug, PartialEq, Eq, Structural)]
pub struct ProgressState {
    /// The number of bytes that the response declared.
    pub total: u64,
    /// The number of bytes written to the file so far.
    pub written: u64,
}

/// How one episode ended.
#[derive(Clone, Copy, Debug, PartialEq, Eq, Structural)]
pub enum FetchOutcome {
    /// The stream ended. `degraded` says that some chunk did not arrive or
    /// could not be written, so that the file may be incomplete.
    Completed { progress: ProgressState, degraded: bool },
    /// The episode was given up before any byte was written.
    Failed(EpisodeError),
}

/// Where one download stands.
#[derive(Clone, Copy, Debug, PartialEq, Eq, Structural)]
pub enum FetchState {
    /// The request is out; no response yet.
    AwaitingResponse,
    /// The response is accepted; the file is being made.
    AwaitingFile { total: u64 },
    /// The file is open; the next chunk is awaited.
    AwaitingChunk { progress: ProgressState, degraded: bool },
    /// A chunk of `pending` bytes is being written.
    AwaitingWrite { progress: ProgressState, degraded: bool, pending: u64 },
    /// The episode is over.
    Done(FetchOutcome),
}

/// What the caller reports.
#[derive(Debug)]
pub enum FetchEvent {
    /// The response's head arrived, with the text of its content length
    /// header where it has one.
    Response { status: u16, content_length: Option<String> },
    /// The request failed.
    RequestFailed,
    /// The output directory exists and the file is open and empty.
    FileReady,
    /// The output directory could not be made.
    DirectoryFailed,
    /// The file could not be made.
    FileFailed,
    /// A chunk of `len` bytes arrived.
    ChunkArrived { len: u64 },
    /// A chunk did not arrive.
    ChunkFailed,
    /// The chunk that arrived last is written.
    WriteDone,
    /// The chunk that arrived last could not be written.
    WriteFailed,
    /// The response's body is at its end.
    StreamEnded,
}

/// What the caller is to do next.
#[derive(Clone, Copy, Debug, PartialEq, Eq, Structural)]
pub enum FetchAction {
    /// Report the diagnostic headers of a refused request. The episode is
    /// over and no file was made.
    ReportBadRequest,
    /// Report why the episode was given up. The episode is over.
    ReportError(EpisodeError),
    /// Make the output directory, open the file empty and show a progress
    /// bar for `total` bytes.
    OpenFile { total: u64 },
    /// Wait for the next chunk.
    AwaitChunk,
    /// Append the chunk that arrived to the file.
    WriteChunk,
    /// Advance the progress bar by `by` bytes, then wait for the next chunk.
    Advance { by: u64 },
    /// Report a failed chunk, then wait for the next chunk.
    ReportChunkError(ChunkError),
    /// Mark the progress bar as complete. The episode is over.
    Finish,
    /// The event does not belong to this state: nothing is to be done.
    Unexpected,
}

/// The text of an optional string.
pub open spec fn text_of(s: Option<String>) -> Option<Seq<char>> {
    match s {
        Some(text) => Some(text@),
        None => None,
    }
}

/// What a response's head means for the episode: the number of bytes to
/// expect, or the reason to give the episode up. A bad-request status is
/// judged before the content length is looked at.
pub open spec fn response_verdict(status: u16, content_length: Option<Seq<char>>) -> Result<
    u64,
    EpisodeError,
> {
    if status == BAD_REQUEST {
        Err(EpisodeError::BadRequest)
    } else {
        match content_length {
            None => Err(EpisodeError::MissingContentLength),
            Some(text) => match decimal_u64(text) {
                Some(total) => Ok(total),
                None => Err(EpisodeError::InvalidContentLength),
            },
        }
    }
}

/// `progress` after `by` more bytes were written. The count stops at the
/// largest number that 64 bits hold.
pub open spec fn advanced(progress: ProgressState, by: u64) -> ProgressState {
    ProgressState {
        total: progress.total,
        written: if progress.written + by > u64::MAX {
            u64::MAX
        } else {
            (progress.written + by) as u64
        },
    }
}

/// The state after `event` was reported in `state`, and what the caller is
/// to do next.
pub open spec fn fetch_step(state: FetchState, event: FetchEvent) -> (FetchState, FetchAction) {
    match (state, event) {
        (FetchState::AwaitingResponse, FetchEvent::Response { status, content_length }) => {
            match response_verdict(status, text_of(content_length)) {
                Ok(total) => (FetchState::AwaitingFile { total }, FetchAction::OpenFile { total }),
                Err(EpisodeError::BadRequest) => (
                    FetchState::Done(FetchOutcome::Failed(EpisodeError::BadRequest)),
                    FetchAction::ReportBadRequest,
                ),
                Err(e) => (
                    FetchState::Done(FetchOutcome::Failed(e)),
                    FetchAction::ReportError(e),
                ),
            }
        },
        (FetchState::AwaitingResponse, FetchEvent::RequestFailed) => (
            FetchState::Done(FetchOutcome::Failed(EpisodeError::RequestFailed)),
            FetchAction::ReportError(EpisodeError::RequestFailed),
        ),
        (FetchState::AwaitingFile { total }, FetchEvent::FileReady) => (
            FetchState::AwaitingChunk {
                progress: ProgressState { total, written: 0 },
                degraded: false,
            },
            FetchAction::AwaitChunk,
        ),
        (FetchState::AwaitingFile { total }, FetchEvent::DirectoryFailed) => (
            FetchState::Done(FetchOutcome::Failed(EpisodeError::DirectoryFailed)),
            FetchAction::ReportError(EpisodeError::DirectoryFailed),
        ),
        (FetchState::AwaitingFile { total }, FetchEvent::FileFailed) => (
            FetchState::Done(FetchOutcome::Failed(EpisodeError::FileFailed)),
            FetchAction::ReportError(EpisodeError::FileFailed),
        ),
        (FetchState::AwaitingChunk { progress, degraded }, FetchEvent::ChunkArrived { len }) => (
            FetchState::AwaitingWrite { progress, degraded, pending: len },
            FetchAction::WriteChunk,
        ),
        (FetchState::AwaitingChunk { progress, degraded }, FetchEvent::ChunkFailed) => (
            FetchState::AwaitingChunk { progress, degraded: true },
            FetchAction::ReportChunkError(ChunkError::Transport),
        ),
        (FetchState::AwaitingChunk { progress, degraded }, FetchEvent::StreamEnded) => (
            FetchState::Done(FetchOutcome::Completed { progress, degraded }),
            FetchAction::Finish,
        ),
        (FetchState::AwaitingWrite { progress, degraded, pending }, FetchEvent::WriteDone) => (
            FetchState::AwaitingChunk { progress: advanced(progress, pending), degraded },
            FetchAction::Advance { by: pending },
        ),
        (FetchState::AwaitingWrite { progress, degraded, pending }, FetchEvent::WriteFailed) => (
            FetchState::AwaitingChunk { progress, degraded: true },
            FetchAction::ReportChunkError(ChunkError::Write),
        ),
        _ => (state, FetchAction::Unexpected),
    }
}

/// Judges a response's head: the number of bytes to expect, or the reason
/// to give the episode up.
pub fn judge_response(status: u16, content_length: Option<&str>) -> (r: Result<u64, EpisodeError>)
    ensures
        r == response_verdict(
            status,
            match content_length {
                Some(text) => Some(text@),
                None => None,
            },
        ),
{
    if status == BAD_REQUEST {
        return Err(EpisodeError::BadRequest);
    }
    match content_length {
        None => Err(EpisodeError::MissingContentLength),
        Some(text) => match parse_decimal(text) {
            Some(total) => Ok(total),
            None => Err(EpisodeError::InvalidContentLength),
        },
    }
}

/// The text of an optional header value.
pub open spec fn header_text_of(value: Option<&HeaderValue>) -> Option<Seq<char>> {
    match value {
        Some(v) => Some(v.text()),
        None => None,
    }
}

/// Makes the report of a response's head from its status and its content
/// length header, where it has one. A header that is not readable as text
/// is reported with the empty text.
pub fn response_event(status: u16, content_length: Option<&HeaderValue>) -> (r: FetchEvent)
    ensures
        r matches FetchEvent::Response { status: s, content_length: c } && s == status && text_of(
            c,
        ) == header_text_of(content_length),
{
    match content_length {
        Some(value) => FetchEvent::Response { status, content_length: Some(value.to_string()) },
        None => FetchEvent::Response { status, content_length: None },
    }
}

impl ProgressState {
    /// Counts `by` more bytes as written.
    pub fn advance(self, by: u64) -> (r: ProgressState)
        ensures
            r == advanced(self, by),
    {
        ProgressState { total: self.total, written: self.written.saturating_add(by) }
    }

    /// Whether as many bytes are written as the response declared.
    pub fn is_complete(self) -> (r: bool)
        ensures
            r == (self.written == self.total),
    {
        self.written == self.total
    }
}

impl FetchState {
    /// The state of a download whose request was just sent.
    pub fn start() -> (r: FetchState)
        ensures
            r == FetchState::AwaitingResponse,
    {
        FetchState::AwaitingResponse
    }

    /// Whether the episode is over.
    pub fn is_done(self) -> (r: bool)
        ensures
            r == (self is Done),
    {
        match self {
            FetchState::Done(_) => true,
            _ => false,
        }
    }

    /// Takes the report of `event` and says what to do next.
    pub fn step(self, event: &FetchEvent) -> (r: (FetchState, FetchAction))
        ensures
            r == fetch_step(self, *event),
    {
        match self {
            FetchState::AwaitingResponse => match event {
                FetchEvent::Response { status, content_length } => {
                    let verdict = match content_length {
                        Some(text) => judge_response(*status, Some(text.as_str())),
                        None => judge_response(*status, None),
                    };
                    match verdict {
                        Ok(total) => (
                            FetchState::AwaitingFile { total },
                            FetchAction::OpenFile { total },
                        ),
                        Err(EpisodeError::BadRequest) => (
                            FetchState::Done(FetchOutcome::Failed(EpisodeError::BadRequest)),
                            FetchAction::ReportBadRequest,
                        ),
                        Err(e) => (
                            FetchState::Done(FetchOutcome::Failed(e)),
                            FetchAction::ReportError(e),
                        ),
                    }
                },
                FetchEvent::RequestFailed => (
                    FetchState::Done(FetchOutcome::Failed(EpisodeError::RequestFailed)),
                    FetchAction::ReportError(EpisodeError::RequestFailed),
                ),
                _ => (self, FetchAction::Unexpected),
            },
            FetchState::AwaitingFile { total } => match event {
                FetchEvent::FileReady => (
                    FetchState::AwaitingChunk {
                        progress: ProgressState { total, written: 0 },
                        degraded: false,
                    },
                    FetchAction::AwaitChunk,
                ),
                FetchEvent::DirectoryFailed => (
                    FetchState::Done(FetchOutcome::Failed(EpisodeError::DirectoryFailed)),
                    FetchAction::ReportError(EpisodeError::DirectoryFailed),
                ),
                FetchEvent::FileFailed => (
                    FetchState::Done(FetchOutcome::Failed(EpisodeError::FileFailed)),
                    FetchAction::ReportError(EpisodeError::FileFailed),
                ),
                _ => (self, FetchAction::Unexpected),
            },
            FetchState::AwaitingChunk { progress, degraded } => match event {
                FetchEvent::ChunkArrived { len } => (
                    FetchState::AwaitingWrite { progress, degraded, pending: *len },
                    FetchAction::WriteChunk,
                ),
                FetchEvent::ChunkFailed => (
                    FetchState::AwaitingChunk { progress, degraded: true },
                    FetchAction::ReportChunkError(ChunkError::Transport),
                ),
                FetchEvent::StreamEnded => (
                    FetchState::Done(FetchOutcome::Completed { progress, degraded }),
                    FetchAction::Finish,
                ),
                _ => (self, FetchAction::Unexpected),
            },
            FetchState::AwaitingWrite { progress, degraded, pending } => match event {
                FetchEvent::WriteDone => (
                    FetchState::AwaitingChunk { progress: progress.advance(pending), degraded },
                    FetchAction::Advance { by: pending },
                ),
                FetchEvent::WriteFailed => (
                    FetchState::AwaitingChunk { progress, degraded: true },
                    FetchAction::ReportChunkError(ChunkError::Write),
                ),
                _ => (self, FetchAction::Unexpected),
            },
            FetchState::Done(_) => (self, FetchAction::Unexpected),
        }
    }
}

/// The state after `events` were reported in `state`, one after another.
pub open spec fn fetch_run(state: FetchState, events: Seq<FetchEvent>) -> FetchState
    decreases events.len(),
{
    if events.len() == 0 {
        state
    } else {
        fetch_step(fetch_run(state, events.drop_last()), events.last()).0
    }
}

/// What the caller is told to do on the event at position `k` of `events`,
/// reported from `state` on.
pub open spec fn fetch_action_at(state: FetchState, events: Seq<FetchEvent>, k: int) -> FetchAction
    recommends
        0 <= k < events.len(),
{
    fetch_step(fetch_run(state, events.take(k)), events[k]).1
}

/// The events of chunks that all arrive and are all written, of the lengths
/// `lens` in turn.
pub open spec fn clean_chunks(lens: Seq<u64>) -> Seq<FetchEvent>
    decreases lens.len(),
{
    if lens.len() == 0 {
        Seq::empty()
    } else {
        clean_chunks(lens.drop_last()).push(FetchEvent::ChunkArrived { len: lens.last() }).push(
            FetchEvent::WriteDone,
        )
    }
}

/// The sum of `lens`.
pub open spec fn total_len(lens: Seq<u64>) -> nat
    decreases lens.len(),
{
    if lens.len() == 0 {
        0
    } else {
        total_len(lens.drop_last()) + lens.last() as nat
    }
}

/// Whether the download is past the making of its file.
pub open spec fn is_streaming(state: FetchState) -> bool {
    state is AwaitingChunk || state is AwaitingWrite
}

/// The number of bytes that `state` counts as written.
pub open spec fn written_in(state: FetchState) -> nat {
    match state {
        FetchState::AwaitingChunk { progress, .. } => progress.written as nat,
        FetchState::AwaitingWrite { progress, .. } => progress.written as nat,
        FetchState::Done(FetchOutcome::Completed { progress, .. }) => progress.written as nat,
        _ => 0,
    }
}

impl FetchState {
    /// Takes the reports of `events` one after another and gives the state
    /// that they lead to.
    pub fn replay(self, events: &Vec<FetchEvent>) -> (r: FetchState)
        ensures
            r == fetch_run(self, events@),
    {
        let mut state = self;
        let mut i: usize = 0;
        while i < events.len()
            invariant
                i <= events@.len(),
                state == fetch_run(self, events@.take(i as int)),
            decreases events@.len() - i,
        {
            assert(events@.take(i + 1).drop_last() =~= events@.take(i as int));
            let (next, _) = state.step(&events[i]);
            state = next;
            i = i + 1;
        }
        assert(events@.take(i as int) =~= events@);
        state
    }
}

/// Reporting two runs of events one after the other is reporting them as
/// one run.
pub proof fn lemma_fetch_run_concat(state: FetchState, first: Seq<FetchEvent>, second: Seq<FetchEvent>)
    ensures
        fetch_run(state, first + second) == fetch_run(fetch_run(state, first), second),
    decreases second.len(),
{
    if second.len() == 0 {
        assert(first + second =~= first);
    } else {
        lemma_fetch_run_concat(state, first, second.drop_last());
        assert((first + second).drop_last() =~= first + second.drop_last());
        assert((first + second).last() == second.last());
    }
}

/// Reporting one more event takes one more step.
pub proof fn lemma_fetch_run_push(state: FetchState, events: Seq<FetchEvent>, event: FetchEvent)
    ensures
        fetch_run(state, events.push(event)) == fetch_step(fetch_run(state, events), event).0,
        fetch_run(state, seq![event]) == fetch_step(state, event).0,
{
    assert(events.push(event).drop_last() =~= events);
    assert(seq![event].drop_last() =~= Seq::<FetchEvent>::empty());
    assert(fetch_run(state, Seq::<FetchEvent>::empty()) == state);
}

/// An episode that is over stays over, with the outcome that it had, and
/// nothing more is asked of the caller.
pub proof fn lemma_done_is_final(outcome: FetchOutcome, events: Seq<FetchEvent>)
    ensures
        fetch_run(FetchState::Done(outcome), events) == FetchState::Done(outcome),
        forall|k: int|
            0 <= k < events.len() ==> #[trigger] fetch_action_at(
                FetchState::Done(outcome),
                events,
                k,
            ) == FetchAction::Unexpected,
    decreases events.len(),
{
    if events.len() > 0 {
        lemma_done_is_final(outcome, events.drop_last());
    }
    assert forall|k: int| 0 <= k < events.len() implies #[trigger] fetch_action_at(
        FetchState::Done(outcome),
        events,
        k,
    ) == FetchAction::Unexpected by {
        lemma_done_is_final(outcome, events.take(k));
    }
}

/// A response with the bad-request status ends the episode at once: the
/// caller is told to report it, and whatever is reported afterwards, it is
/// never told to make the file or to write to it.
pub proof fn lemma_bad_request_makes_no_file(head: FetchEvent, rest: Seq<FetchEvent>)
    requires
        head matches FetchEvent::Response { status, .. } && status == BAD_REQUEST,
    ensures
        fetch_step(FetchState::AwaitingResponse, head) == (
            FetchState::Done(FetchOutcome::Failed(EpisodeError::BadRequest)),
            FetchAction::ReportBadRequest,
        ),
        fetch_run(FetchState::AwaitingResponse, seq![head] + rest) == FetchState::Done(
            FetchOutcome::Failed(EpisodeError::BadRequest),
        ),
        forall|k: int|
            1 <= k <= rest.len() ==> #[trigger] fetch_action_at(
                FetchState::AwaitingResponse,
                seq![head] + rest,
                k,
            ) == FetchAction::Unexpected,
{
    let refused = FetchOutcome::Failed(EpisodeError::BadRequest);
    let events = seq![head] + rest;
    lemma_fetch_run_push(FetchState::AwaitingResponse, Seq::empty(), head);
    lemma_fetch_run_concat(FetchState::AwaitingResponse, seq![head], rest);
    lemma_done_is_final(refused, rest);
    assert forall|k: int| 1 <= k <= rest.len() implies #[trigger] fetch_action_at(
        FetchState::AwaitingResponse,
        events,
        k,
    ) == FetchAction::Unexpected by {
        assert(events.take(k) =~= seq![head] + rest.take(k - 1));
        lemma_fetch_run_concat(FetchState::AwaitingResponse, seq![head], rest.take(k - 1));
        lemma_done_is_final(refused, rest.take(k - 1));
        assert(events[k] == rest[k - 1]);
    }
}

/// The caller is told to make the file only on a response that does not
/// have the bad-request status and declares a content length that is a
/// number; only then can anything be written.
pub proof fn lemma_file_needs_accepted_response(state: FetchState, event: FetchEvent)
    ensures
        fetch_step(state, event).1 is OpenFile <==> state is AwaitingResponse && (event matches FetchEvent::Response {
            status,
            content_length,
        } && status != BAD_REQUEST && content_length is Some && decimal_u64(
            content_length->0@,
        ) is Some),
        fetch_step(state, event).1 is WriteChunk ==> state is AwaitingChunk,
        fetch_step(state, event).0 is AwaitingChunk ==> state is AwaitingFile || is_streaming(
            state,
        ),
{
}

/// Chunks that all arrive and are all written add their lengths to the
/// count of written bytes, and leave the download waiting for the next
/// chunk.
pub proof fn lemma_clean_chunks_add_up(progress: ProgressState, degraded: bool, lens: Seq<u64>)
    requires
        progress.written + total_len(lens) <= u64::MAX,
    ensures
        fetch_run(FetchState::AwaitingChunk { progress, degraded }, clean_chunks(lens))
            == (FetchState::AwaitingChunk {
            progress: ProgressState {
                total: progress.total,
                written: (progress.written + total_len(lens)) as u64,
            },
            degraded,
        }),
    decreases lens.len(),
{
    let start = FetchState::AwaitingChunk { progress, degraded };
    if lens.len() > 0 {
        let front = clean_chunks(lens.drop_last());
        let arrived = FetchEvent::ChunkArrived { len: lens.last() };
        lemma_clean_chunks_add_up(progress, degraded, lens.drop_last());
        lemma_fetch_run_push(start, front, arrived);
        lemma_fetch_run_push(start, front.push(arrived), FetchEvent::WriteDone);
    } else {
        assert(fetch_run(start, Seq::<FetchEvent>::empty()) == start);
    }
}

/// A download whose response declares `total` bytes, whose file can be
/// made and whose chunks all arrive and are all written, with lengths that
/// add up to `total`, ends completed and not degraded, with exactly `total`
/// bytes written out of `total`.
pub proof fn lemma_clean_download_is_complete(head: FetchEvent, total: u64, lens: Seq<u64>)
    requires
        head matches FetchEvent::Response { status, content_length } && response_verdict(
            status,
            text_of(content_length),
        ) == Ok::<u64, EpisodeError>(total),
        total_len(lens) == total,
    ensures
        fetch_run(
            FetchState::AwaitingResponse,
            seq![head, FetchEvent::FileReady] + clean_chunks(lens) + seq![FetchEvent::StreamEnded],
        ) == FetchState::Done(
            FetchOutcome::Completed {
                progress: ProgressState { total, written: total },
                degraded: false,
            },
        ),
{
    let opening = seq![head, FetchEvent::FileReady];
    let open = FetchState::AwaitingChunk {
        progress: ProgressState { total, written: 0 },
        degraded: false,
    };
    lemma_fetch_run_push(FetchState::AwaitingResponse, Seq::empty(), head);
    lemma_fetch_run_push(FetchState::AwaitingResponse, seq![head], FetchEvent::FileReady);
    assert(seq![head].push(FetchEvent::FileReady) =~= opening);
    assert(fetch_run(FetchState::AwaitingResponse, opening) == open);
    lemma_clean_chunks_add_up(ProgressState { total, written: 0 }, false, lens);
    lemma_fetch_run_concat(FetchState::AwaitingResponse, opening, clean_chunks(lens));
    let body = opening + clean_chunks(lens);
    lemma_fetch_run_push(FetchState::AwaitingResponse, body, FetchEvent::StreamEnded);
    assert(body.push(FetchEvent::StreamEnded) =~= body + seq![FetchEvent::StreamEnded]);
}

/// The count of written bytes moves only when a write is reported done,
/// and then by the length of the chunk that was written: a chunk that only
/// arrived, or failed, counts for nothing.
pub proof fn lemma_progress_counts_written_bytes(state: FetchState, event: FetchEvent)
    ensures
        written_in(fetch_step(state, event).0) == (match (state, event) {
            (FetchState::AwaitingWrite { progress, pending, .. }, FetchEvent::WriteDone) => {
                if progress.written + pending > u64::MAX {
                    u64::MAX as nat
                } else {
                    (progress.written + pending) as nat
                }
            },
            _ => written_in(state),
        }),
{
}

/// Once the file is open, only the end of the stream ends the episode: as
/// long as it is not reported, the download goes on whatever chunks fail,
/// and the count of written bytes never falls.
pub proof fn lemma_stream_survives_chunk_errors(state: FetchState, events: Seq<FetchEvent>)
    requires
        is_streaming(state),
        forall|k: int| 0 <= k < events.len() ==> !(#[trigger] events[k] is StreamEnded),
    ensures
        is_streaming(fetch_run(state, events)),
        written_in(fetch_run(state, events)) >= written_in(state),
    decreases events.len(),
{
    if events.len() > 0 {
        let front = events.drop_last();
        assert forall|k: int| 0 <= k < front.len() implies !(#[trigger] front[k] is StreamEnded) by {
            assert(front[k] == events[k]);
        }
        lemma_stream_survives_chunk_errors(state, front);
        assert(!(events[events.len() - 1] is StreamEnded));
    }
}

} // verus!

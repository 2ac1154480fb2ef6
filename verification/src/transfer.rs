//! The response pipeline for a binary transfer (download or stream).
//!
//! A transfer suspends at each network boundary, so the pipeline is a state
//! machine: the caller performs one step of outside work (issue the request,
//! await headers, write one body chunk to the sink), reports what happened as
//! a [`TransferEvent`], and is told by [`transfer_step`] what to do next.
//! The machine follows a redirect exactly once: a `Location` header on the
//! first response is followed, a `Location` header on the second response is
//! not — that response's body is consumed as-is.

use vstd::prelude::*;

use crate::error::Error;

verus! {

/// Where a transfer stands between two pieces of outside work.
#[derive(Debug)]
pub enum TransferState {
    /// The initial request was issued; its response headers are awaited.
    AwaitingFirst,
    /// The single redirect hop was taken; the second response is awaited.
    AwaitingSecond,
    /// Body chunks are being written to the sink; `written` bytes so far.
    Streaming { written: usize },
    /// The body ended after `written` bytes.
    Done { written: usize },
    /// The transfer failed; no further work is to be done.
    Failed { error: Error },
}

/// What the caller reports after one piece of outside work.
#[derive(Debug)]
pub enum TransferEvent {
    /// Response headers arrived, with the `Location` header if present.
    Headers { location: Option<String> },
    /// One body chunk was handed to the sink: the byte count it accepted,
    /// or the rendered I/O error it failed with.
    ChunkWritten { result: Result<usize, String> },
    /// The body ended.
    BodyEnd,
    /// The transport failed, with its rendered error.
    TransportFailed { message: String },
}

/// What the caller is to do next.
#[derive(Debug)]
pub enum TransferAction {
    /// Issue a GET to this URL (the one redirect hop) and report its headers.
    Follow { url: String },
    /// Start reading the body and report each chunk as it is written.
    ReadBody,
    /// Keep reading the body.
    Continue,
    /// The transfer is complete; the state holds the byte count.
    Finish,
    /// The transfer failed; the state holds the error.
    Fail,
}

/// The transition relation of the transfer pipeline, as one total function.
///
/// A mismatched event (one the current state is not waiting for) changes
/// nothing and asks the caller to continue.
pub open spec fn spec_step(s: TransferState, e: TransferEvent) -> (TransferState, TransferAction) {
    match s {
        TransferState::AwaitingFirst => match e {
            TransferEvent::Headers { location: Some(url) } => (
                TransferState::AwaitingSecond,
                TransferAction::Follow { url },
            ),
            TransferEvent::Headers { location: None } => (
                TransferState::Streaming { written: 0 },
                TransferAction::ReadBody,
            ),
            TransferEvent::TransportFailed { message } => (
                TransferState::Failed { error: Error::HttpError(message) },
                TransferAction::Fail,
            ),
            _ => (TransferState::AwaitingFirst, TransferAction::Continue),
        },
        TransferState::AwaitingSecond => match e {
            TransferEvent::Headers { location: _ } => (
                TransferState::Streaming { written: 0 },
                TransferAction::ReadBody,
            ),
            TransferEvent::TransportFailed { message } => (
                TransferState::Failed { error: Error::HttpError(message) },
                TransferAction::Fail,
            ),
            _ => (TransferState::AwaitingSecond, TransferAction::Continue),
        },
        TransferState::Streaming { written } => match e {
            TransferEvent::ChunkWritten { result: Ok(n) } => (
                TransferState::Streaming { written: (written + n) as usize },
                TransferAction::Continue,
            ),
            TransferEvent::ChunkWritten { result: Err(m) } => (
                TransferState::Failed { error: Error::Io(m) },
                TransferAction::Fail,
            ),
            TransferEvent::BodyEnd => (
                TransferState::Done { written },
                TransferAction::Finish,
            ),
            TransferEvent::TransportFailed { message } => (
                TransferState::Failed { error: Error::HttpError(message) },
                TransferAction::Fail,
            ),
            _ => (TransferState::Streaming { written }, TransferAction::Continue),
        },
        TransferState::Done { written } => (
            TransferState::Done { written },
            TransferAction::Finish,
        ),
        TransferState::Failed { error } => (TransferState::Failed { error }, TransferAction::Fail),
    }
}

/// Performs one step of the transfer pipeline.
///
/// The byte count a sink accepts for one chunk never exceeds the chunk's
/// length, so on any one response body the running total fits a `usize`;
/// the caller upholds that machine limit.
pub fn transfer_step(s: TransferState, e: TransferEvent) -> (r: (TransferState, TransferAction))
    requires
        (match (s, e) {
            (
                TransferState::Streaming { written },
                TransferEvent::ChunkWritten { result: Ok(n) },
            ) => written + n <= usize::MAX,
            _ => true,
        }),
    ensures
        r == spec_step(s, e),
{
    match s {
        TransferState::AwaitingFirst => match e {
            TransferEvent::Headers { location: Some(url) } => (
                TransferState::AwaitingSecond,
                TransferAction::Follow { url },
            ),
            TransferEvent::Headers { location: None } => (
                TransferState::Streaming { written: 0 },
                TransferAction::ReadBody,
            ),
            TransferEvent::TransportFailed { message } => (
                TransferState::Failed { error: Error::HttpError(message) },
                TransferAction::Fail,
            ),
            _ => (TransferState::AwaitingFirst, TransferAction::Continue),
        },
        TransferState::AwaitingSecond => match e {
            TransferEvent::Headers { location: _ } => (
                TransferState::Streaming { written: 0 },
                TransferAction::ReadBody,
            ),
            TransferEvent::TransportFailed { message } => (
                TransferState::Failed { error: Error::HttpError(message) },
                TransferAction::Fail,
            ),
            _ => (TransferState::AwaitingSecond, TransferAction::Continue),
        },
        TransferState::Streaming { written } => match e {
            TransferEvent::ChunkWritten { result: Ok(n) } => (
                TransferState::Streaming { written: written + n },
                TransferAction::Continue,
            ),
            TransferEvent::ChunkWritten { result: Err(m) } => (
                TransferState::Failed { error: Error::Io(m) },
                TransferAction::Fail,
            ),
            TransferEvent::BodyEnd => (TransferState::Done { written }, TransferAction::Finish),
            TransferEvent::TransportFailed { message } => (
                TransferState::Failed { error: Error::HttpError(message) },
                TransferAction::Fail,
            ),
            _ => (TransferState::Streaming { written }, TransferAction::Continue),
        },
        TransferState::Done { written } => (
            TransferState::Done { written },
            TransferAction::Finish,
        ),
        TransferState::Failed { error } => (TransferState::Failed { error }, TransferAction::Fail),
    }
}

/// The state after running the machine over a sequence of events.
pub open spec fn spec_run(s: TransferState, events: Seq<TransferEvent>) -> TransferState
    decreases events.len(),
{
    if events.len() == 0 {
        s
    } else {
        spec_run(spec_step(s, events[0]).0, events.drop_first())
    }
}

/// The actions the machine hands out while running over a sequence of events.
pub open spec fn spec_actions(s: TransferState, events: Seq<TransferEvent>) -> Seq<TransferAction>
    decreases events.len(),
{
    if events.len() == 0 {
        Seq::empty()
    } else {
        seq![spec_step(s, events[0]).1] + spec_actions(
            spec_step(s, events[0]).0,
            events.drop_first(),
        )
    }
}

/// How many of the actions ask the caller to follow a redirect.
pub open spec fn follow_count(actions: Seq<TransferAction>) -> nat
    decreases actions.len(),
{
    if actions.len() == 0 {
        0
    } else {
        (if actions[0] matches TransferAction::Follow { .. } {
            1nat
        } else {
            0nat
        }) + follow_count(actions.drop_first())
    }
}

/// From any state but the initial one, the machine never asks for a redirect
/// to be followed, and never returns to the initial state.
proof fn lemma_no_follow_after_first(s: TransferState, events: Seq<TransferEvent>)
    requires
        !(s matches TransferState::AwaitingFirst),
    ensures
        follow_count(spec_actions(s, events)) == 0,
    decreases events.len(),
{
    if events.len() > 0 {
        let (s2, a) = spec_step(s, events[0]);
        assert(!(a matches TransferAction::Follow { .. }));
        assert(!(s2 matches TransferState::AwaitingFirst));
        lemma_no_follow_after_first(s2, events.drop_first());
        assert(spec_actions(s, events).drop_first() =~= spec_actions(s2, events.drop_first()));
    }
}

/// Redirect-following is bounded: whatever events the transport delivers, a
/// transfer started in the initial state asks for at most one redirect hop.
pub proof fn lemma_at_most_one_redirect(events: Seq<TransferEvent>)
    ensures
        follow_count(spec_actions(TransferState::AwaitingFirst, events)) <= 1,
    decreases events.len(),
{
    let s = TransferState::AwaitingFirst;
    if events.len() > 0 {
        let (s2, a) = spec_step(s, events[0]);
        assert(spec_actions(s, events).drop_first() =~= spec_actions(s2, events.drop_first()));
        match s2 {
            TransferState::AwaitingFirst => {
                lemma_at_most_one_redirect(events.drop_first());
            },
            _ => {
                lemma_no_follow_after_first(s2, events.drop_first());
            },
        }
    }
}

/// The events of a body whose every chunk the sink accepted.
pub open spec fn ok_chunk_events(counts: Seq<usize>) -> Seq<TransferEvent> {
    counts.map_values(
        |n: usize| TransferEvent::ChunkWritten { result: Ok::<usize, String>(n) },
    )
}

/// The total of a sequence of per-chunk byte counts.
pub open spec fn chunk_sum(counts: Seq<usize>) -> int
    decreases counts.len(),
{
    if counts.len() == 0 {
        0
    } else {
        counts[0] + chunk_sum(counts.drop_first())
    }
}

/// Byte accounting is exact: when the sink accepts every chunk of the body,
/// the transfer ends in `Done` with the sum of all accepted byte counts.
pub proof fn lemma_total_is_chunk_sum(w: usize, counts: Seq<usize>)
    requires
        w + chunk_sum(counts) <= usize::MAX,
    ensures
        spec_run(
            TransferState::Streaming { written: w },
            ok_chunk_events(counts).push(TransferEvent::BodyEnd),
        ) == (TransferState::Done { written: (w + chunk_sum(counts)) as usize }),
    decreases counts.len(),
{
    let s = TransferState::Streaming { written: w };
    let events = ok_chunk_events(counts).push(TransferEvent::BodyEnd);
    if counts.len() == 0 {
        assert(ok_chunk_events(counts) =~= Seq::<TransferEvent>::empty());
        assert(events.len() == 1);
        assert(events[0] == TransferEvent::BodyEnd);
        assert(events.drop_first() =~= Seq::<TransferEvent>::empty());
        assert(spec_run(spec_step(s, events[0]).0, events.drop_first()) == spec_step(
            s,
            events[0],
        ).0);
        assert(spec_run(s, events) == spec_step(s, TransferEvent::BodyEnd).0);
    } else {
        let n = counts[0];
        assert(chunk_sum(counts) == n + chunk_sum(counts.drop_first()));
        assert(chunk_sum(counts.drop_first()) >= 0) by {
            lemma_chunk_sum_nonneg(counts.drop_first());
        }
        let w2 = (w + n) as usize;
        assert(events[0] == (TransferEvent::ChunkWritten { result: Ok::<usize, String>(n) }));
        assert(spec_step(s, events[0]).0 == (TransferState::Streaming { written: w2 }));
        assert(events.drop_first() =~= ok_chunk_events(counts.drop_first()).push(
            TransferEvent::BodyEnd,
        ));
        lemma_total_is_chunk_sum(w2, counts.drop_first());
    }
}

/// A sum of byte counts is never negative.
proof fn lemma_chunk_sum_nonneg(counts: Seq<usize>)
    ensures
        chunk_sum(counts) >= 0,
    decreases counts.len(),
{
    if counts.len() > 0 {
        lemma_chunk_sum_nonneg(counts.drop_first());
    }
}

/// The machine hands out one action per event.
pub proof fn lemma_actions_len(s: TransferState, events: Seq<TransferEvent>)
    ensures
        spec_actions(s, events).len() == events.len(),
    decreases events.len(),
{
    if events.len() > 0 {
        lemma_actions_len(spec_step(s, events[0]).0, events.drop_first());
    }
}

/// A failed transfer stays failed: whatever events still arrive, the state
/// keeps its error and every further action is `Fail`, so no
/// further chunk is asked for after the sink rejects a write.
pub proof fn lemma_failure_is_final(error: Error, events: Seq<TransferEvent>)
    ensures
        spec_run(TransferState::Failed { error }, events) == (TransferState::Failed { error }),
        forall|i: int|
            0 <= i < events.len() ==> #[trigger] spec_actions(
                TransferState::Failed { error },
                events,
            )[i] matches TransferAction::Fail,
    decreases events.len(),
{
    let s = TransferState::Failed { error };
    if events.len() > 0 {
        lemma_failure_is_final(error, events.drop_first());
        lemma_actions_len(s, events);
        lemma_actions_len(s, events.drop_first());
        assert(spec_actions(s, events).drop_first() =~= spec_actions(s, events.drop_first()));
        assert forall|i: int| 0 <= i < events.len() implies #[trigger] spec_actions(s, events)[i]
            matches TransferAction::Fail by {
            if i > 0 {
                assert(spec_actions(s, events)[i] == spec_actions(s, events).drop_first()[i - 1]);
            }
        }
    }
}

} // verus!

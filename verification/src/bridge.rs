//! The two halves of the bridge as pure steps: what to put on the bus at a
//! tick, and what to hand to the publish sink for a received frame.
//!
//! The program that owns the bus handles and the sink runs the loops; it
//! transmits the frames of `tick_frames` one after the other and publishes
//! the lines of `frame_lines`.

use crate::decoder::{decode, spec_decode, DecodeError};
use crate::frame::{Frame, REQUEST_READ_ID};
use crate::record::{RecordModel, TelemetryRecord};
use crate::scheduler::{request_frame, request_payload, Cadence, RequestScheduler};
use crate::sink::{metric_line, spec_metric_line};
use vstd::prelude::*;

verus! {

/// The parameter-group codes of the first `count` of the given batches, in
/// the order in which they are requested.
pub open spec fn batch_codes(batches: Seq<Cadence>, count: nat) -> Seq<u8>
    decreases count,
{
    if count == 0 {
        Seq::empty()
    } else {
        batch_codes(batches, (count - 1) as nat) + batches[count - 1].group_codes()
    }
}

/// The parameter-group codes that a tick at `now_ms` requests, in order.
pub open spec fn tick_codes(state: RequestScheduler, now_ms: u64) -> Seq<u8> {
    batch_codes(state.batches_at(now_ms), state.batches_at(now_ms).len())
}

/// `frames` are the request frames for the parameter groups `codes`, one
/// for each code and in the same order.
pub open spec fn are_requests_for(frames: Seq<Frame>, codes: Seq<u8>) -> bool {
    &&& frames.len() == codes.len()
    &&& forall|i: int|
        0 <= i < frames.len() ==> {
            &&& (#[trigger] frames[i]).wf()
            &&& frames[i].identifier == REQUEST_READ_ID
            &&& frames[i].payload@ == request_payload(codes[i])
        }
}

/// Handles the tick at `now_ms` and returns the request frames to transmit,
/// in order: those of the fast batch, then those of the slow batch where it
/// is due.
pub fn tick_frames(scheduler: &mut RequestScheduler, now_ms: u64) -> (frames: Vec<Frame>)
    ensures
        are_requests_for(frames@, tick_codes(*old(scheduler), now_ms)),
        *final(scheduler) == old(scheduler).after_tick(now_ms),
{
    let batches = scheduler.on_tick(now_ms);
    let mut frames: Vec<Frame> = Vec::new();
    let mut b: usize = 0;
    while b < batches.len()
        invariant
            b <= batches@.len(),
            are_requests_for(frames@, batch_codes(batches@, b as nat)),
        decreases batches@.len() - b,
    {
        let requests = batches[b].requests();
        let ghost codes = batches@[b as int].group_codes();
        let mut r: usize = 0;
        while r < requests.len()
            invariant
                r <= requests@.len(),
                requests@.len() == codes.len(),
                forall|i: int|
                    0 <= i < requests@.len() ==> (#[trigger] requests@[i]).payload@
                        == request_payload(codes[i]),
                are_requests_for(frames@, batch_codes(batches@, b as nat) + codes.take(r as int)),
            decreases requests@.len() - r,
        {
            frames.push(request_frame(&requests[r]));
            assert(batch_codes(batches@, b as nat) + codes.take(r + 1) =~= (batch_codes(
                batches@,
                b as nat,
            ) + codes.take(r as int)).push(codes[r as int]));
            r += 1;
        }
        assert(codes.take(r as int) =~= codes);
        b += 1;
    }
    frames
}

/// Decodes a received frame and writes the metric line of each of its
/// records, in the order of the records. A frame with an unknown identifier
/// gives no line; a truncated payload gives the decoder's error.
pub fn frame_lines(frame: &Frame) -> (result: Result<Vec<String>, DecodeError>)
    ensures
        match result {
            Ok(lines) => spec_decode(frame.identifier, frame.payload@) matches Ok(records)
                && lines@.len() == records.len() && forall|i: int|
                0 <= i < lines@.len() ==> (#[trigger] lines@[i])@ == spec_metric_line(records[i]),
            Err(error) => spec_decode(frame.identifier, frame.payload@) == Err::<
                Seq<RecordModel>,
                DecodeError,
            >(error),
        },
{
    let records: Vec<TelemetryRecord> = decode(frame)?;
    let mut lines: Vec<String> = Vec::new();
    let mut i: usize = 0;
    while i < records.len()
        invariant
            i <= records@.len(),
            lines@.len() == i,
            forall|k: int| 0 <= k < i ==> (#[trigger] lines@[k])@ == spec_metric_line(records@[k]@),
        decreases records@.len() - i,
    {
        lines.push(metric_line(&records[i]));
        i += 1;
    }
    Ok(lines)
}

/// What a tick requests: nothing once the scheduler has failed; else the two
/// groups of the fast set, followed by the six groups of the slow set where
/// the slow batch is due.
pub proof fn lemma_tick_codes(state: RequestScheduler, now_ms: u64)
    ensures
        state is Failed ==> tick_codes(state, now_ms) == Seq::<u8>::empty(),
        !(state is Failed) && !state.slow_due(now_ms) ==> tick_codes(state, now_ms) == seq![
            0x21u8,
            0x22u8,
        ],
        !(state is Failed) && state.slow_due(now_ms) ==> tick_codes(state, now_ms) == seq![
            0x21u8,
            0x22u8,
            0x20u8,
            0x23u8,
            0x24u8,
            0xA0u8,
            0xA1u8,
            0xC0u8,
        ],
{
    reveal_with_fuel(batch_codes, 3);
    if state is Failed {
    } else if state.slow_due(now_ms) {
        assert(tick_codes(state, now_ms) =~= seq![
            0x21u8,
            0x22u8,
            0x20u8,
            0x23u8,
            0x24u8,
            0xA0u8,
            0xA1u8,
            0xC0u8,
        ]);
    } else {
        assert(tick_codes(state, now_ms) =~= seq![0x21u8, 0x22u8]);
    }
}

} // verus!

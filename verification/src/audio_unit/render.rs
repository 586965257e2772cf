//! One render cycle: from the engine's buffers to the user's callback and
//! back to a status.
//!
//! The engine calls a plain function once per cycle, with a frame count and
//! one buffer per channel. The function presents each buffer to the user's
//! callback as a view of exactly that many samples, calls it, and turns its
//! outcome into a status that the engine understands. Nothing is kept
//! between cycles.

use vstd::prelude::*;
use crate::audio_unit::NumFrames;
use crate::error::{Error, NO_CONNECTION, NO_ERROR};

verus! {

/// What a render cycle reports.
#[derive(Debug, PartialEq, Eq)]
pub struct Rendered {
    /// The status for the engine.
    pub status: i32,
    /// The callback's failure, to be written to the diagnostic stream.
    pub failure: Option<Error>,
}

/// What the callback's outcome makes of a cycle: success is status zero;
/// a failure is the "no connection" status, with the callback's description
/// to report.
pub open spec fn rendered_of(outcome: Result<(), String>) -> Rendered {
    match outcome {
        Ok(()) => Rendered { status: NO_ERROR, failure: None },
        Err(description) => Rendered {
            status: NO_CONNECTION,
            failure: Some(Error::CallbackFailed(description)),
        },
    }
}

/// Turns the callback's outcome into the cycle's report.
pub fn render_status(outcome: Result<(), String>) -> (rendered: Rendered)
    ensures
        rendered == rendered_of(outcome),
{
    match outcome {
        Ok(()) => Rendered { status: NO_ERROR, failure: None },
        Err(description) => {
            let failure = Error::CallbackFailed(description);
            Rendered { status: failure.to_os_status(), failure: Some(failure) }
        },
    }
}

/// The views of a cycle: one per buffer, in the buffers' order, each the
/// first `frames` samples of its buffer.
pub open spec fn presents<S>(channels: Seq<&mut [S]>, io_data: Seq<&mut [S]>, frames: int)
    -> bool {
    &&& channels.len() == io_data.len()
    &&& forall|i: int|
        0 <= i < channels.len() ==> #[trigger] channels[i]@ == io_data[i]@.subrange(0, frames)
}

/// Whether every buffer holds at least `frames` samples, which is what
/// [`input_proc`] asks of the buffers it is given.
pub fn holds_frames<S>(io_data: &Vec<&mut [S]>, frames: NumFrames) -> (holds: bool)
    ensures
        holds <==> forall|i: int|
            0 <= i < io_data@.len() ==> frames <= #[trigger] io_data@[i]@.len(),
{
    let mut index: usize = 0;
    while index < io_data.len()
        invariant
            index <= io_data@.len(),
            forall|i: int| 0 <= i < index ==> frames <= #[trigger] io_data@[i]@.len(),
        decreases io_data@.len() - index,
    {
        if io_data[index].len() < frames {
            return false;
        }
        index = index + 1;
    }
    true
}

/// A cycle presents exactly one view per channel, and every view has
/// exactly the requested number of frames.
pub proof fn lemma_views_have_frame_count<S>(
    channels: Seq<&mut [S]>,
    io_data: Seq<&mut [S]>,
    frames: int,
)
    requires
        0 <= frames,
        forall|i: int| 0 <= i < io_data.len() ==> frames <= #[trigger] io_data[i]@.len(),
        presents(channels, io_data, frames),
    ensures
        channels.len() == io_data.len(),
        forall|i: int| 0 <= i < channels.len() ==> #[trigger] channels[i]@.len() == frames,
{
    assert forall|i: int| 0 <= i < channels.len() implies #[trigger] channels[i]@.len() == frames by {
        assert(channels[i]@ == io_data[i]@.subrange(0, frames));
    }
}

/// Builds the views of a cycle. Each view writes through to its buffer: the
/// buffer ends as what the view ends as, followed by the samples past the
/// view, untouched.
pub fn channel_views<'a, S>(io_data: Vec<&'a mut [S]>, frames: NumFrames) -> (channels: Vec<
    &'a mut [S],
>)
    requires
        forall|i: int| 0 <= i < io_data@.len() ==> frames <= #[trigger] io_data@[i]@.len(),
    ensures
        presents(channels@, io_data@, frames as int),
        forall|i: int|
            0 <= i < channels@.len() ==> final(io_data@[i])@ == final(#[trigger] channels@[i])@
                + io_data@[i]@.subrange(frames as int, io_data@[i]@.len() as int),
{
    let mut channels: Vec<&'a mut [S]> = Vec::new();
    for buffer in it: io_data
        invariant
            it.seq() == io_data@,
            channels@.len() == it.index(),
            forall|i: int| 0 <= i < io_data@.len() ==> frames <= #[trigger] io_data@[i]@.len(),
            forall|i: int|
                0 <= i < channels@.len() ==> #[trigger] channels@[i]@ == io_data@[i]@.subrange(
                    0,
                    frames as int,
                ),
            forall|i: int|
                0 <= i < channels@.len() ==> final(io_data@[i])@ == final(#[trigger] channels@[i])@
                    + io_data@[i]@.subrange(frames as int, io_data@[i]@.len() as int),
    {
        let (head, _tail) = buffer.split_at_mut(frames);
        channels.push(head);
    }
    channels
}

/// The procedure that runs each time the unit asks for audio.
///
/// `io_data` holds the engine's buffer of each channel. The callback is
/// called once, with one view per channel, each of exactly
/// `in_number_frames` samples, and with that frame count. The report is
/// success where the callback succeeded, and the "no connection" status with
/// the callback's description where it failed.
///
/// Every buffer has to hold at least `in_number_frames` samples: a view is
/// never longer than the buffer behind it.
pub fn input_proc<'a, S, F>(
    callback: &mut F,
    in_number_frames: u32,
    io_data: Vec<&'a mut [S]>,
) -> (rendered: Rendered) where F: FnMut(&mut [&mut [S]], NumFrames) -> Result<(), String>
    requires
        forall|i: int|
            0 <= i < io_data@.len() ==> in_number_frames <= #[trigger] io_data@[i]@.len(),
        forall|channels: &mut [&mut [S]]|
            presents(channels@, io_data@, in_number_frames as int) ==> call_requires(
                *old(callback),
                (channels, in_number_frames as usize),
            ),
    ensures
        exists|channels: &mut [&mut [S]], outcome: Result<(), String>|
            {
                &&& presents(channels@, io_data@, in_number_frames as int)
                &&& forall|i: int|
                    0 <= i < channels@.len() ==> final(io_data@[i])@ == final(
                        #[trigger] channels@[i]
                    )@ + io_data@[i]@.subrange(
                        in_number_frames as int,
                        io_data@[i]@.len() as int,
                    )
                &&& #[trigger] call_ensures(
                    *old(callback),
                    (channels, in_number_frames as usize),
                    outcome,
                )
                &&& rendered == rendered_of(outcome)
            },
{
    let frames: NumFrames = in_number_frames as usize;
    let mut channels = channel_views(io_data, frames);
    let outcome = callback(channels.as_mut_slice(), frames);
    render_status(outcome)
}

} // verus!

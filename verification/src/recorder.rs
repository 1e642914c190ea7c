use vstd::prelude::*;
use std::sync::Arc;
use std::sync::atomic::AtomicBool;
use std::sync::atomic::Ordering;
use crate::channel::Received;

verus! {

/// The request to stop recording, shared between whoever raises it (a timer,
/// an outside trigger) and the receive loop that polls it. Reads and writes
/// are sequentially consistent, and nothing lowers a raised signal.
///
/// What a read returns depends on what the other contexts have done by then,
/// so no contract speaks of it: the loop's decision, `next_turn`, takes the
/// value read as an argument.
pub struct StopSignal {
    flag: Arc<AtomicBool>,
}

impl StopSignal {
    /// The flag that this handle points to. Handles with one flag are handles
    /// on one signal: what one of them raises, the others read.
    pub closed spec fn flag(&self) -> AtomicBool {
        *self.flag
    }

    /// A signal that has not been raised.
    pub fn new() -> (signal: StopSignal) {
        StopSignal { flag: Arc::new(AtomicBool::new(false)) }
    }

    /// Another handle on the same signal, for another context.
    pub fn share(&self) -> (signal: StopSignal)
        ensures
            signal.flag() == self.flag(),
    {
        StopSignal { flag: same_flag(&self.flag) }
    }

    /// Raises the signal.
    pub fn raise(&self) {
        self.flag.store(true, Ordering::SeqCst);
    }

    /// Whether the signal has been raised, by this handle or another.
    pub fn is_raised(&self) -> (raised: bool) {
        self.flag.load(Ordering::SeqCst)
    }
}

/// `Arc::clone` of std, which vstd leaves without a contract: the new pointer
/// points to the allocation that `handle` points to, so both hold the same
/// flag. Nothing is claimed of what the flag holds.
#[verifier::external_body]
fn same_flag(handle: &Arc<AtomicBool>) -> (copy: Arc<AtomicBool>)
    ensures
        copy == *handle,
{
    Arc::clone(handle)
}

/// What the receive loop does next.
#[derive(Clone, Copy, Debug, PartialEq, Eq, Structural)]
pub enum Turn {
    /// Nothing has arrived yet: wait for the channel.
    Wait,
    /// Process the frame that was received.
    Process,
    /// Leave the loop: finalize the pipeline, then stop the capture source.
    /// A frame that was received with this turn is let go unprocessed.
    Shutdown,
}

impl Turn {
    /// The loop ends when the stream has ended, or when a frame arrives after
    /// the stop signal was raised. The signal is looked at only between
    /// frames: an empty channel is waited on whatever the signal says.
    pub open spec fn after<T>(received: Received<T>, stop: bool) -> Turn {
        match received {
            Received::Frame(_) => if stop {
                Turn::Shutdown
            } else {
                Turn::Process
            },
            Received::Empty => Turn::Wait,
            Received::Closed => Turn::Shutdown,
        }
    }
}

/// Decides one turn of the receive loop from what the channel handed out and
/// the stop signal as read after that.
pub fn next_turn<T>(received: &Received<T>, stop: bool) -> (turn: Turn)
    ensures
        turn == Turn::after(*received, stop),
{
    match received {
        Received::Frame(_) => if stop {
            Turn::Shutdown
        } else {
            Turn::Process
        },
        Received::Empty => Turn::Wait,
        Received::Closed => Turn::Shutdown,
    }
}

/// How long to record and where to write the file.
pub struct RecordingConfig {
    /// Seconds after which the stop signal is raised.
    pub duration_secs: u64,
    /// Path of the output file.
    pub output: String,
}

impl Default for RecordingConfig {
    /// Five seconds into `output.mp4`.
    fn default() -> (config: RecordingConfig)
        ensures
            config.duration_secs == 5,
            config.output@ == "output.mp4"@,
    {
        RecordingConfig { duration_secs: 5, output: "output.mp4".to_owned() }
    }
}

} // verus!

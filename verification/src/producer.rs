use vstd::prelude::*;

use crate::error::Error;

verus! {

/// A producer only sleeps when at least this much of the frame budget is
/// left; with less it spins to the next tick.
pub const THRES_WAIT_US: i64 = 3_000;

/// Safety margin subtracted from every sleep so the producer wakes before
/// the tick.
pub const THRES_SKIP_US: i64 = 50;

/// Microseconds each frame may take at the configured rate. Zero frames per
/// second means free-run: no pacing, and the ring push uses backpressure, so
/// a file-backed source is walked frame by frame without dropping.
pub fn us_per_frame(fps: u32) -> (us: i64)
    ensures
        fps == 0 ==> us == 0,
        fps > 0 ==> us == 1_000_000 as int / fps as int,
        0 <= us <= 1_000_000,
{
    if fps == 0 {
        0
    } else {
        1_000_000 / (fps as i64)
    }
}

/// What the producer loop does next, decided from the liveness flag.
#[derive(Copy, Clone, Debug, PartialEq, Eq, Structural)]
pub enum ProducerAction {
    /// The reader was stopped: leave the loop, release the device.
    Finish,
    /// Capture one frame and push it, with backpressure exactly in
    /// free-run mode, then pace when a frame rate is configured.
    Capture { backpressure: bool, pace: bool },
}

/// One decision of the producer loop of a device-backed reader: stop when
/// the liveness flag dropped, otherwise capture and push, with backpressure
/// if and only if the source free-runs (`us_per_frame == 0`) and pacing if
/// and only if a frame rate is configured.
pub fn producer_step(alive: bool, us_per_frame: i64) -> (a: ProducerAction)
    requires
        us_per_frame >= 0,
    ensures
        !alive ==> a == ProducerAction::Finish,
        alive ==> a == (ProducerAction::Capture {
            backpressure: us_per_frame == 0,
            pace: us_per_frame > 0,
        }),
{
    if !alive {
        ProducerAction::Finish
    } else {
        ProducerAction::Capture { backpressure: us_per_frame == 0, pace: us_per_frame > 0 }
    }
}

/// How long the producer sleeps after a push to hold the configured rate:
/// the remaining frame budget less the wake-up margin, but only when at
/// least `THRES_WAIT_US` is left — less than that is spun away. A clock
/// reading that overflowed (`elapsed_us` is `None`) consumes the whole
/// budget.
pub fn pacing_sleep_us(us_per_frame: i64, elapsed_us: Option<i64>) -> (r: Option<u64>)
    requires
        0 < us_per_frame <= 1_000_000,
        elapsed_us matches Some(e) ==> e >= 0,
    ensures
        ({
            let remaining = us_per_frame - (match elapsed_us {
                Some(e) => e,
                None => us_per_frame,
            });
            if remaining >= THRES_WAIT_US {
                r == Some((remaining - THRES_SKIP_US) as u64)
            } else {
                r is None
            }
        }),
{
    let remaining = us_per_frame - (match elapsed_us {
        Some(e) => e,
        None => us_per_frame,
    });
    if remaining >= THRES_WAIT_US {
        Some((remaining - THRES_SKIP_US) as u64)
    } else {
        None
    }
}

/// The error a consumer's `get` reports once it has seen the producer
/// stopped: the failure the producer left behind, and `NotRunning` when it
/// finished cleanly or never ran.
pub fn surfaced_error(producer_result: Option<Result<(), Error>>) -> (e: Error)
    ensures
        producer_result matches Some(Err(pe)) ==> e == pe,
        !(producer_result matches Some(r) && r is Err) ==> e == Error::NotRunning,
{
    match producer_result {
        Some(Err(pe)) => pe,
        _ => Error::NotRunning,
    }
}

} // verus!

//! The decisions of the frame loop. Each iteration polls at most one event,
//! clears to the next color of the cycle, presents, optionally sleeps and
//! counts the frame; the loop stops once the application is no longer
//! running, checked before each iteration. `FrameLoop::step` decides one
//! iteration from the polled event; the caller does the platform work.

use vstd::prelude::*;
use crate::color::{color_at, ColorCycle, Rgb, CYCLE_LEN};
use crate::event::{is_quit_poll, polls_quit, InputEvent};
use crate::session::{delay_spec, App};

verus! {

/// The running flag after one poll: a quit-equivalent event clears it, and
/// nothing sets it again.
pub open spec fn next_running(running: bool, e: Option<InputEvent>) -> bool {
    running && !polls_quit(e)
}

/// The running flag after the given polls, one per iteration, in order.
pub open spec fn running_after(running: bool, polls: Seq<Option<InputEvent>>) -> bool
    decreases polls.len(),
{
    if polls.len() == 0 {
        running
    } else {
        next_running(running_after(running, polls.drop_last()), polls.last())
    }
}

/// Once stopped, the application stays stopped, whatever is polled after.
pub proof fn lemma_stopped_stays_stopped(polls: Seq<Option<InputEvent>>)
    ensures
        !running_after(false, polls),
    decreases polls.len(),
{
    if polls.len() > 0 {
        lemma_stopped_stays_stopped(polls.drop_last());
    }
}

/// A stop at some point of a run holds at every later point of it.
pub proof fn lemma_stop_is_absorbing(running: bool, polls: Seq<Option<InputEvent>>, k: nat, m: nat)
    requires
        k <= m <= polls.len(),
        !running_after(running, polls.take(k as int)),
    ensures
        !running_after(running, polls.take(m as int)),
    decreases m - k,
{
    if k < m {
        lemma_stop_is_absorbing(running, polls, k, (m - 1) as nat);
        assert(polls.take(m as int).drop_last() =~= polls.take(m - 1));
    }
}

/// Milliseconds between two readings of a 32-bit millisecond tick counter
/// that wraps around.
pub open spec fn elapsed_spec(start: u32, end: u32) -> nat {
    if end >= start {
        (end - start) as nat
    } else {
        (end - start + 0x1_0000_0000) as nat
    }
}

/// Frames per second over a run: `frames * 1000 / elapsed_ms`, truncated;
/// none when no millisecond has elapsed.
pub open spec fn fps_spec(frames: nat, elapsed_ms: nat) -> Option<nat> {
    if elapsed_ms == 0 {
        None
    } else {
        Some(frames * 1000 / elapsed_ms)
    }
}

/// Milliseconds from `start` to `end` on the wrapping tick counter.
pub fn elapsed_ms(start: u32, end: u32) -> (r: u32)
    ensures
        r as nat == elapsed_spec(start, end),
{
    end.wrapping_sub(start)
}

/// Frames per second, or none when the elapsed time is zero.
pub fn frames_per_second(frames: u64, elapsed_ms: u32) -> (r: Option<u128>)
    ensures
        r matches Some(v) ==> fps_spec(frames as nat, elapsed_ms as nat) == Some(v as nat),
        r is None ==> fps_spec(frames as nat, elapsed_ms as nat) is None,
{
    if elapsed_ms == 0 {
        None
    } else {
        let scaled: u128 = frames as u128 * 1000;
        let v: u128 = scaled / (elapsed_ms as u128);
        Some(v)
    }
}

/// What the caller does for one iteration after the poll.
#[derive(Clone, Copy, Debug, PartialEq, Eq, Structural)]
pub struct Frame {
    /// The color to clear the surface to before presenting it.
    pub color: Rgb,
    /// The polled event asked to stop: announce the termination.
    pub quit_requested: bool,
    /// Milliseconds to sleep after presenting, if any.
    pub delay_ms: Option<u64>,
}

/// The state of a running frame loop: the application, the color cycle,
/// the number of completed frames and the tick reading at the start.
#[derive(Clone, Copy, Debug)]
pub struct FrameLoop {
    app: App,
    cycle: ColorCycle,
    frames: u64,
    start_ticks: u32,
}

impl FrameLoop {
    pub closed spec fn wf(&self) -> bool {
        &&& self.cycle.wf()
        &&& self.cycle.position() == (self.frames as nat) % (CYCLE_LEN as nat)
    }

    pub closed spec fn app(&self) -> App {
        self.app
    }

    pub closed spec fn frames(&self) -> nat {
        self.frames as nat
    }

    pub closed spec fn start(&self) -> u32 {
        self.start_ticks
    }

    /// A loop about to draw its first frame, started at tick `start_ticks`.
    pub fn new(app: App, start_ticks: u32) -> (l: FrameLoop)
        ensures
            l.wf(),
            l.app() == app,
            l.frames() == 0,
            l.start() == start_ticks,
    {
        FrameLoop { app, cycle: ColorCycle::new(), frames: 0, start_ticks }
    }

    /// Checked before each iteration: the loop goes on while this is true.
    pub fn is_running(&self) -> (r: bool)
        ensures
            r == self.app().running(),
    {
        self.app.is_running()
    }

    /// The number of completed frames.
    pub fn frame_count(&self) -> (r: u64)
        ensures
            r as nat == self.frames(),
    {
        self.frames
    }

    /// One iteration of a running loop, from the event polled in it: quit on
    /// a quit-equivalent event, take the next color, count the frame. The
    /// frame that asked to stop is still drawn and counted.
    pub fn step(&mut self, polled: Option<InputEvent>) -> (f: Frame)
        requires
            old(self).wf(),
            old(self).app().running(),
            old(self).frames() < u64::MAX,
        ensures
            final(self).wf(),
            f.quit_requested == polls_quit(polled),
            final(self).app().running() == next_running(old(self).app().running(), polled),
            final(self).app().pacing() == old(self).app().pacing(),
            f.color == color_at(old(self).frames()),
            f.delay_ms == delay_spec(old(self).app().pacing()),
            final(self).frames() == old(self).frames() + 1,
            final(self).start() == old(self).start(),
    {
        let quit_requested = is_quit_poll(&polled);
        if quit_requested {
            self.app.quit();
        }
        let color = self.cycle.next();
        let delay_ms = self.app.pacing_mode().delay_ms();
        self.frames = self.frames + 1;
        Frame { color, quit_requested, delay_ms }
    }

    /// The achieved frames per second, reading `end_ticks` on exit; none
    /// when no millisecond has elapsed since the start.
    pub fn fps_report(&self, end_ticks: u32) -> (r: Option<u128>)
        ensures
            r matches Some(v) ==> fps_spec(self.frames(), elapsed_spec(self.start(), end_ticks))
                == Some(v as nat),
            r is None ==> fps_spec(self.frames(), elapsed_spec(self.start(), end_ticks)) is None,
    {
        frames_per_second(self.frames, elapsed_ms(self.start_ticks, end_ticks))
    }
}

} // verus!

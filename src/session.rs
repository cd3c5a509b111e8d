//! The application's run state and pacing configuration.

use vstd::prelude::*;

verus! {

/// Added to the refresh interval when pacing frames: the delay rounds up,
/// so the loop runs slightly below the display's refresh rate.
pub const PACING_MARGIN_MS: u64 = 1;

/// How the loop waits between frames.
#[derive(Clone, Copy, Debug, PartialEq, Eq, Structural)]
pub enum Pacing {
    /// No delay: the loop runs as fast as polling and drawing allow.
    Unpaced,
    /// A delay derived from the display's refresh rate in Hz.
    RefreshRate(i32),
}

/// The delay in milliseconds after each frame, if any. A refresh rate that
/// is not positive (unknown to the platform) gives no delay.
pub open spec fn delay_spec(p: Pacing) -> Option<u64> {
    match p {
        Pacing::Unpaced => None,
        Pacing::RefreshRate(hz) => if hz > 0 {
            Some((1000int / (hz as int) + PACING_MARGIN_MS) as u64)
        } else {
            None
        },
    }
}

impl Pacing {
    /// Pacing derived from the refresh rate of the display mode.
    pub fn from_refresh_rate(hz: i32) -> (p: Pacing)
        ensures
            p == Pacing::RefreshRate(hz),
    {
        Pacing::RefreshRate(hz)
    }

    /// The delay in milliseconds to sleep after each frame: `1000 / hz + 1`
    /// (integer division) for a positive refresh rate, none otherwise.
    pub fn delay_ms(&self) -> (d: Option<u64>)
        ensures
            d == delay_spec(*self),
    {
        match self {
            Pacing::Unpaced => None,
            Pacing::RefreshRate(hz) => {
                if *hz > 0 {
                    let per_frame: u64 = (1000 / *hz) as u64;
                    Some(per_frame + PACING_MARGIN_MS)
                } else {
                    None
                }
            },
        }
    }
}

/// The application state: whether it is still running, and how it paces
/// frames. `running` starts true and, once false, is never true again:
/// `quit` is the only transition.
#[derive(Clone, Copy, Debug)]
pub struct App {
    running: bool,
    pacing: Pacing,
}

impl App {
    pub closed spec fn running(&self) -> bool {
        self.running
    }

    pub closed spec fn pacing(&self) -> Pacing {
        self.pacing
    }

    /// The state after the quit transition: stopped, pacing unchanged.
    pub open spec fn after_quit(self) -> App {
        App::stopped_with(self.pacing())
    }

    pub closed spec fn stopped_with(p: Pacing) -> App {
        App { running: false, pacing: p }
    }

    /// A running application with the given pacing.
    pub fn new(pacing: Pacing) -> (a: App)
        ensures
            a.running(),
            a.pacing() == pacing,
    {
        App { running: true, pacing }
    }

    pub fn is_running(&self) -> (r: bool)
        ensures
            r == self.running(),
    {
        self.running
    }

    pub fn pacing_mode(&self) -> (p: Pacing)
        ensures
            p == self.pacing(),
    {
        self.pacing
    }

    /// Stops the application; calling it again changes nothing.
    pub fn quit(&mut self)
        ensures
            *final(self) == old(self).after_quit(),
            !final(self).running(),
            final(self).pacing() == old(self).pacing(),
    {
        self.running = false;
    }
}

/// Quitting twice leaves the application as quitting once does: stopped,
/// with its pacing unchanged.
pub proof fn lemma_quit_idempotent(a: App)
    ensures
        a.after_quit().after_quit() == a.after_quit(),
        !a.after_quit().running(),
        !a.after_quit().after_quit().running(),
        a.after_quit().pacing() == a.pacing(),
{
}

} // verus!

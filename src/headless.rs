//! A run of the frame loop without a platform: the polls come from a
//! scripted list and the colors that would be drawn are recorded.

use vstd::prelude::*;
use crate::color::{color_at, Rgb};
use crate::event::{polls_quit, InputEvent};
use crate::frame_loop::{elapsed_spec, fps_spec, running_after, FrameLoop};
use crate::session::{App, Pacing};

verus! {

/// What a scripted run of the loop did.
#[derive(Clone, Debug)]
pub struct RunReport {
    /// Completed frames, the one that asked to stop included.
    pub frames: u64,
    /// The color that each frame cleared to, in order.
    pub colors: Vec<Rgb>,
    /// Whether the application was still running when the script ran out.
    pub running: bool,
    /// The frames-per-second report; none when no time elapsed.
    pub fps: Option<u128>,
}

/// Runs the loop with the i-th poll returning `polls[i]`, until the
/// application stops or the script runs out, on a timer that reads
/// `start_ticks` at the start and `end_ticks` at the exit.
pub fn run_scripted(pacing: Pacing, polls: &Vec<Option<InputEvent>>, start_ticks: u32, end_ticks: u32) -> (r: RunReport)
    ensures
        r.frames as nat == r.colors@.len(),
        r.frames <= polls@.len(),
        forall|j: int| 0 <= j < r.frames ==> r.colors@[j] == color_at(j as nat),
        forall|j: int| 0 <= j < r.frames - 1 ==> !polls_quit(#[trigger] polls@[j]),
        !r.running ==> r.frames > 0 && polls_quit(polls@[r.frames - 1]),
        r.running ==> r.frames == polls@.len(),
        r.running == running_after(true, polls@.take(r.frames as int)),
        r.fps matches Some(v) ==> fps_spec(r.frames as nat, elapsed_spec(start_ticks, end_ticks))
            == Some(v as nat),
        r.fps is None ==> fps_spec(r.frames as nat, elapsed_spec(start_ticks, end_ticks)) is None,
{
    let mut lp = FrameLoop::new(App::new(pacing), start_ticks);
    let mut colors: Vec<Rgb> = Vec::new();
    let mut i: usize = 0;
    assert(polls@.take(0) =~= Seq::<Option<InputEvent>>::empty());
    while lp.is_running() && i < polls.len()
        invariant
            lp.wf(),
            lp.start() == start_ticks,
            lp.frames() == i,
            i <= polls@.len(),
            colors@.len() == i,
            forall|j: int| 0 <= j < i ==> colors@[j] == color_at(j as nat),
            forall|j: int| 0 <= j < i - 1 ==> !polls_quit(#[trigger] polls@[j]),
            lp.app().running() ==> forall|j: int| 0 <= j < i ==> !polls_quit(#[trigger] polls@[j]),
            !lp.app().running() ==> i > 0 && polls_quit(polls@[i - 1]),
            lp.app().running() == running_after(true, polls@.take(i as int)),
        decreases polls@.len() - i,
    {
        let f = lp.step(polls[i]);
        colors.push(f.color);
        assert(polls@.take(i + 1).drop_last() =~= polls@.take(i as int));
        i = i + 1;
    }
    let frames = lp.frame_count();
    let running = lp.is_running();
    let fps = lp.fps_report(end_ticks);
    RunReport { frames, colors, running, fps }
}

} // verus!

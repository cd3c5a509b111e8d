use romlauncher::color::{ColorCycle, Rgb};
use romlauncher::event::{is_quit_poll, InputEvent, Key};
use romlauncher::frame_loop::{elapsed_ms, frames_per_second, FrameLoop};
use romlauncher::headless::run_scripted;
use romlauncher::session::{App, Pacing};
use romlauncher::window::launcher_window;

fn black() -> Rgb {
    Rgb { r: 0, g: 0, b: 0 }
}

fn white() -> Rgb {
    Rgb { r: 255, g: 255, b: 255 }
}

#[test]
fn color_cycle_alternates_black_and_white() {
    let mut cycle = ColorCycle::new();
    for i in 0..10 {
        let c = cycle.next();
        if i % 2 == 0 {
            assert_eq!(c, black());
        } else {
            assert_eq!(c, white());
        }
    }
}

#[test]
fn scripted_run_colors_follow_frame_parity() {
    let polls = vec![None; 7];
    let r = run_scripted(Pacing::Unpaced, &polls, 0, 7);
    assert_eq!(r.frames, 7);
    assert!(r.running);
    assert_eq!(
        r.colors,
        vec![black(), white(), black(), white(), black(), white(), black()]
    );
}

#[test]
fn scripted_run_with_no_polls_draws_nothing() {
    let r = run_scripted(Pacing::Unpaced, &Vec::new(), 3, 3);
    assert_eq!(r.frames, 0);
    assert!(r.colors.is_empty());
    assert!(r.running);
    assert_eq!(r.fps, None);
}

#[test]
fn quit_release_of_q_stops_the_loop() {
    // The scripted fourth poll is never taken: the loop checks the running
    // flag before each iteration, and the third frame asked to stop.
    let polls = vec![None, None, Some(InputEvent::KeyUp(Key::Q)), None];
    let r = run_scripted(Pacing::Unpaced, &polls, 100, 103);
    assert_eq!(r.frames, 3);
    assert!(!r.running);
    assert_eq!(r.colors, vec![black(), white(), black()]);
    assert_eq!(r.fps, Some(1000));
}

#[test]
fn stop_takes_effect_after_the_quit_frame() {
    let mut lp = FrameLoop::new(App::new(Pacing::Unpaced), 0);
    let mut drawn = Vec::new();
    let polls = [None, None, Some(InputEvent::KeyUp(Key::Q)), None];
    let mut k = 0;
    while lp.is_running() {
        let f = lp.step(polls[k]);
        drawn.push(f.color);
        if k == 2 {
            assert!(f.quit_requested);
            assert!(!lp.is_running());
        } else {
            assert!(!f.quit_requested);
            assert!(lp.is_running());
        }
        k += 1;
    }
    assert_eq!(lp.frame_count(), 3);
    assert_eq!(drawn, vec![black(), white(), black()]);
}

#[test]
fn frame_count_includes_the_quit_frame() {
    let mut lp = FrameLoop::new(App::new(Pacing::Unpaced), 0);
    lp.step(None);
    lp.step(Some(InputEvent::Other));
    let f = lp.step(Some(InputEvent::Quit));
    assert!(f.quit_requested);
    assert_eq!(lp.frame_count(), 3);
    assert!(!lp.is_running());
}

#[test]
fn quit_classification() {
    let quits = [
        InputEvent::Quit,
        InputEvent::KeyUp(Key::Q),
        InputEvent::KeyUp(Key::Escape),
    ];
    for e in quits {
        assert!(e.is_quit_request());
        let mut lp = FrameLoop::new(App::new(Pacing::Unpaced), 0);
        let f = lp.step(Some(e));
        assert!(f.quit_requested);
        assert!(!lp.is_running());
    }
    let others = [
        InputEvent::KeyDown(Key::Q),
        InputEvent::KeyDown(Key::Escape),
        InputEvent::KeyUp(Key::Other),
        InputEvent::KeyDown(Key::Other),
        InputEvent::Other,
    ];
    for e in others {
        assert!(!e.is_quit_request());
        let mut lp = FrameLoop::new(App::new(Pacing::Unpaced), 0);
        let f = lp.step(Some(e));
        assert!(!f.quit_requested);
        assert!(lp.is_running());
    }
    assert!(!is_quit_poll(&None));
    assert!(is_quit_poll(&Some(InputEvent::Quit)));
}

#[test]
fn quit_twice_stays_stopped() {
    let mut app = App::new(Pacing::RefreshRate(60));
    assert!(app.is_running());
    app.quit();
    assert!(!app.is_running());
    app.quit();
    assert!(!app.is_running());
    assert_eq!(app.pacing_mode(), Pacing::RefreshRate(60));
}

#[test]
fn fps_with_zero_elapsed_time_is_none() {
    assert_eq!(frames_per_second(42, 0), None);
    let polls = vec![None, None];
    let r = run_scripted(Pacing::Unpaced, &polls, 500, 500);
    assert_eq!(r.frames, 2);
    assert_eq!(r.fps, None);
    let mut lp = FrameLoop::new(App::new(Pacing::Unpaced), 77);
    lp.step(None);
    assert_eq!(lp.fps_report(77), None);
}

#[test]
fn fps_is_truncated_division() {
    assert_eq!(frames_per_second(120, 2000), Some(60));
    assert_eq!(frames_per_second(7, 3), Some(2333));
    assert_eq!(frames_per_second(0, 10), Some(0));
    assert_eq!(
        frames_per_second(u64::MAX, 1),
        Some(u64::MAX as u128 * 1000)
    );
}

#[test]
fn elapsed_wraps_around() {
    assert_eq!(elapsed_ms(100, 350), 250);
    assert_eq!(elapsed_ms(u32::MAX - 4, 5), 10);
    assert_eq!(elapsed_ms(9, 9), 0);
}

#[test]
fn pacing_delay_rounds_up() {
    assert_eq!(Pacing::from_refresh_rate(60).delay_ms(), Some(17));
    assert_eq!(Pacing::from_refresh_rate(144).delay_ms(), Some(7));
    assert_eq!(Pacing::from_refresh_rate(1000).delay_ms(), Some(2));
    assert_eq!(Pacing::from_refresh_rate(0).delay_ms(), None);
    assert_eq!(Pacing::from_refresh_rate(-5).delay_ms(), None);
    assert_eq!(Pacing::Unpaced.delay_ms(), None);
    let mut lp = FrameLoop::new(App::new(Pacing::RefreshRate(50)), 0);
    assert_eq!(lp.step(None).delay_ms, Some(21));
}

#[test]
fn launcher_window_request() {
    let w = launcher_window();
    assert_eq!(w.title, "ROMLauncher");
    assert_eq!((w.width, w.height), (800, 700));
    assert_eq!((w.x, w.y), (0, 0));
    assert!(w.fullscreen_desktop);
}

//! A fullscreen frame-loop skeleton: the decisions of each frame (which
//! color to clear to, whether a quit was requested, how long to pace, how
//! many frames were drawn, the achieved rate) are made here, while the
//! platform work (window, events, drawing, timer) is done by the caller.

pub mod color;
pub mod event;
pub mod session;
pub mod frame_loop;
pub mod headless;
pub mod window;

use termvideo::filter::FilterType;
use termvideo::playback::{Pace, PlaybackState};

fn playing(now: u64) -> PlaybackState {
    PlaybackState::new(15, (80, 24), now).unwrap()
}

#[test]
fn startup_defaults() {
    let s = playing(1000);
    assert_eq!(s.interval_ms(), 66);
    assert_eq!(s.filter(), FilterType::Gaussian);
    assert_eq!(s.strength_halves(), 4);
    assert!(!s.is_paused());
    assert!(!s.should_quit());
    assert_eq!(s.frame_index(), 0);
    assert_eq!(s.anchor_ms(), 1000);
    assert_eq!(s.term_size(), (80, 24));
}

#[test]
fn frame_rates_without_an_interval_are_refused() {
    assert!(PlaybackState::new(0, (80, 24), 0).is_none());
    assert!(PlaybackState::new(1001, (80, 24), 0).is_none());
    assert_eq!(PlaybackState::new(1000, (80, 24), 0).unwrap().interval_ms(), 1);
    assert_eq!(PlaybackState::new(1, (80, 24), 0).unwrap().interval_ms(), 1000);
}

#[test]
fn keys_change_filter_strength_and_quit() {
    let mut s = playing(0);
    s.handle_key('4', 5);
    assert_eq!(s.filter(), FilterType::Lanczos);
    s.handle_key('1', 5);
    assert_eq!(s.filter(), FilterType::Nearest);
    s.handle_key(']', 5);
    assert_eq!(s.strength_halves(), 5);
    for _ in 0..10 {
        s.handle_key('[', 5);
    }
    assert_eq!(s.strength_halves(), 2);
    s.handle_key('x', 5);
    assert!(!s.should_quit());
    s.handle_key('q', 5);
    assert!(s.should_quit());
}

#[test]
fn first_tick_renders() {
    let mut s = playing(0);
    s.begin_tick();
    assert_eq!(s.pace(10), Pace::Render);
    assert_eq!(s.finish_render(20), 0);
    assert_eq!(s.frame_index(), 1);
}

#[test]
fn slow_render_is_caught_up_by_dropping_frames() {
    let mut s = playing(0);
    s.begin_tick();
    assert_eq!(s.pace(0), Pace::Render);
    // the render took 500 ms: the clock now expects frame 7
    assert_eq!(s.finish_render(500), 0);
    assert_eq!(s.frame_index(), 1);
    assert_eq!(s.expected_frame(500), 7);
    let mut dropped = 0;
    loop {
        s.begin_tick();
        match s.pace(500) {
            Pace::CatchUp => dropped += 1,
            other => {
                assert_eq!(other, Pace::Render);
                break;
            }
        }
    }
    assert_eq!(dropped, 5);
    assert_eq!(s.frame_index(), 6);
    assert!(s.frame_index() + 1 >= s.expected_frame(500));
}

#[test]
fn early_render_sleeps_until_its_frame() {
    let mut s = playing(0);
    s.begin_tick();
    assert_eq!(s.pace(0), Pace::Render);
    assert_eq!(s.finish_render(0), 0);
    s.begin_tick();
    assert_eq!(s.pace(10), Pace::Render);
    // frame 1 finished at 10 ms, when the clock still expects frame 0
    assert_eq!(s.finish_render(10), 66);
    assert_eq!(s.frame_index(), 2);
}

#[test]
fn paused_quiet_ticks_do_not_redraw() {
    let mut s = playing(0);
    s.handle_key(' ', 0);
    assert!(s.is_paused());
    s.begin_tick();
    assert_eq!(s.pace(10), Pace::Render);
    s.finish_render(10);
    s.begin_tick();
    assert_eq!(s.pace(20), Pace::Unchanged);
    s.begin_tick();
    assert_eq!(s.pace(30), Pace::Unchanged);
}

#[test]
fn resize_forces_a_redraw_while_paused() {
    let mut s = playing(0);
    s.handle_key(' ', 0);
    s.begin_tick();
    assert_eq!(s.pace(1), Pace::Render);
    s.finish_render(1);
    s.begin_tick();
    s.handle_resize(120, 40);
    assert_eq!(s.term_size(), (120, 40));
    assert_eq!(s.pace(2), Pace::Render);
    assert_eq!(s.output_size((100, 100)), (80, 80));
}

#[test]
fn pause_and_resume_restart_the_clock() {
    let mut s = playing(0);
    for t in [0u64, 70, 140, 210] {
        s.begin_tick();
        if s.pace(t) == Pace::Render {
            s.finish_render(t);
        }
    }
    assert!(s.frame_index() > 0);
    s.handle_key(' ', 300);
    assert!(s.is_paused());
    s.handle_key(' ', 5000);
    assert!(!s.is_paused());
    assert_eq!(s.frame_index(), 0);
    assert_eq!(s.anchor_ms(), 5000);
    assert_eq!(s.expected_frame(5000), 0);
}

#[test]
fn stream_end_pauses_playback() {
    let mut s = playing(0);
    s.end_of_stream();
    assert!(s.is_paused());
    assert!(!s.should_quit());
}

#[test]
fn paused_quiet_ticks_keep_up_without_redrawing() {
    let mut s = PlaybackState::new(10, (80, 24), 0).unwrap();
    s.handle_key(' ', 0);
    s.begin_tick();
    assert_eq!(s.pace(0), Pace::Render);
    s.finish_render(0);
    s.begin_tick();
    assert_eq!(s.pace(300), Pace::Unchanged);
    s.begin_tick();
    // the clock expects frame 3: the index moved up to 2, nothing was drawn
    assert_eq!(s.frame_index(), 2);
    s.begin_tick();
    assert_eq!(s.pace(301), Pace::Unchanged);
    assert_eq!(s.frame_index(), 2);
}

#[test]
fn paused_render_is_within_one_frame_of_the_clock() {
    let mut s = PlaybackState::new(1000, (80, 24), 0).unwrap();
    s.handle_key(' ', 0);
    s.begin_tick();
    assert_eq!(s.pace(10), Pace::Render);
    assert_eq!(s.frame_index(), 9);
    assert_eq!(s.expected_frame(10), 10);
    assert_eq!(s.finish_render(10), 0);
    assert_eq!(s.frame_index(), 10);
}

#[test]
fn resize_before_stream_end_is_drawn_next_tick() {
    let mut s = playing(0);
    s.begin_tick();
    assert_eq!(s.pace(0), Pace::Render);
    s.finish_render(0);
    s.begin_tick();
    s.handle_resize(100, 30);
    s.end_of_stream();
    s.begin_tick();
    assert_eq!(s.pace(10), Pace::Render);
    s.finish_render(10);
    s.begin_tick();
    assert_eq!(s.pace(20), Pace::Unchanged);
}

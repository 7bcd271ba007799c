use swarm_wallpaper::session::choose_format;
use swarm_wallpaper::{FrameParams, State};

#[test]
fn new_floors_zero_dimensions() {
    let s = State::new(0, 0);
    assert_eq!(s.width, 1);
    assert_eq!(s.height, 1);
    assert_eq!(s.frame, 0);

    let s = State::new(0, 600);
    assert_eq!((s.width, s.height), (1, 600));

    let s = State::new(800, 0);
    assert_eq!((s.width, s.height), (800, 1));
}

#[test]
fn new_keeps_normal_dimensions() {
    let s = State::new(800, 600);
    assert_eq!(s.width, 800);
    assert_eq!(s.height, 600);
    assert_eq!(s.frame, 0);
}

#[test]
fn resize_with_zero_dimension_is_a_noop() {
    let mut s = State::new(800, 600);
    s.resize(0, 0);
    assert_eq!((s.width, s.height, s.frame), (800, 600, 0));
    s.resize(0, 480);
    assert_eq!((s.width, s.height, s.frame), (800, 600, 0));
    s.resize(640, 0);
    assert_eq!((s.width, s.height, s.frame), (800, 600, 0));
}

#[test]
fn resize_updates_size_and_keeps_frame() {
    let mut s = State::new(800, 600);
    let _ = s.render();
    let _ = s.render();
    s.resize(640, 480);
    assert_eq!((s.width, s.height, s.frame), (640, 480, 2));
    // redundant resize is safe and changes nothing
    s.resize(640, 480);
    assert_eq!((s.width, s.height, s.frame), (640, 480, 2));
}

#[test]
fn render_increments_frame_index_by_one() {
    let mut s = State::new(800, 600);
    let p = s.render();
    assert_eq!(p, FrameParams { width: 800, height: 600, frame_index: 1 });
    assert_eq!(s.frame, 1);
    let p = s.render();
    assert_eq!(p.frame_index, 2);
    assert_eq!(s.frame, 2);
}

#[test]
fn render_wraps_frame_index_at_the_maximum() {
    let mut s = State { width: 800, height: 600, frame: u32::MAX };
    let p = s.render();
    assert_eq!(p, FrameParams { width: 800, height: 600, frame_index: 0 });
    assert_eq!(s.frame, 0);
    let p = s.render();
    assert_eq!(p.frame_index, 1);
}

#[test]
fn render_observes_the_resized_size() {
    let mut s = State::new(800, 600);
    s.resize(640, 480);
    let p = s.render();
    assert_eq!(p, FrameParams { width: 640, height: 480, frame_index: 1 });
}

#[test]
fn choose_format_with_no_advertised_format() {
    let flags: Vec<bool> = Vec::new();
    assert_eq!(choose_format(&flags), None);
}

#[test]
fn choose_format_falls_back_to_the_first_format() {
    let flags = vec![false, false, false];
    assert_eq!(choose_format(&flags), Some(0));
}

#[test]
fn choose_format_prefers_the_first_srgb_format() {
    let flags = vec![false, false, true, true];
    assert_eq!(choose_format(&flags), Some(2));
    let flags = vec![true, false];
    assert_eq!(choose_format(&flags), Some(0));
}

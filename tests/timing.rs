use nes::timing::{FrameTiming, Shutdown};

#[test]
fn frame_pacing_waits_out_the_period() {
    let mut t = FrameTiming::new();
    assert_eq!(t.frame_limit_ms, 16);
    // first frame: nothing stamped yet, no delay
    assert_eq!(t.post_render(5), None);
    t.post_delay(5);
    // the stub clock moves 5 ms per frame
    assert_eq!(t.post_render(10), Some(11));
    t.post_delay(10);
    assert_eq!(t.post_render(15), Some(11));
    t.post_delay(15);
    assert_eq!(t.frame_n, 3);
    assert_eq!(t.last_frame_timestamp, 15);
}

#[test]
fn slow_frame_gets_no_delay() {
    let mut t = FrameTiming::new();
    t.post_delay(100);
    assert_eq!(t.post_render(116), None);
    assert_eq!(t.post_render(200), None);
    assert_eq!(t.post_render(115), Some(1));
}

#[test]
fn fps_max_sets_frame_limit() {
    let mut t = FrameTiming::new();
    t.fps_max(30);
    assert_eq!(t.frame_limit_ms, 33);
    t.fps_max(1000);
    assert_eq!(t.frame_limit_ms, 1);
}

#[test]
fn fps_avg_counts_whole_seconds() {
    let mut t = FrameTiming::new();
    for i in 0..120 {
        t.post_delay(i + 1);
    }
    assert_eq!(t.fps_avg(2000), 60);
    assert_eq!(t.fps_avg(2999), 60);
    assert_eq!(t.fps_avg(999), 0);
    assert_eq!(t.frame_n, 120);
}

#[test]
fn shutdown_from_bool() {
    assert_eq!(Shutdown::from(true), Shutdown::Yes);
    assert_eq!(Shutdown::from(false), Shutdown::No);
}

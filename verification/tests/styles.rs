use revolver::styles::{demo_step, find_style, style_at, DEMO_PAUSE_MS, STYLE_COUNT};

/// The table must carry every style (55 of them).
#[test]
fn all_styles_present() {
    assert_eq!(STYLE_COUNT, 55);
    for name in ["dots", "line", "flip", "shark", "bouncingBall", "pong"] {
        assert!(find_style(name).is_some(), "missing style {name}");
    }
    assert!(find_style("does-not-exist").is_none());
}

/// No style may have an empty frame list or a non-positive interval.
#[test]
fn every_style_is_animatable() {
    for i in 0..STYLE_COUNT {
        let s = style_at(i);
        let name = s.name;
        assert!(s.interval_ms > 0, "{name} has non-positive interval");
        assert!(!s.frames.is_empty(), "{name} has no frames");
    }
}

/// The styles whose frames hold backslashes and backticks carry them as
/// written.
#[test]
fn repaired_styles_have_correct_frames() {
    assert_eq!(style_at(find_style("line").unwrap()).frames, &["-", "\\", "|", "/"]);
    assert_eq!(
        style_at(find_style("flip").unwrap()).frames,
        &["_", "_", "_", "-", "`", "`", "'", "´", "-", "_", "_", "_"]
    );
    let shark = style_at(find_style("shark").unwrap()).frames;
    assert_eq!(shark.len(), 26);
    assert_eq!(shark[0], "▐|\\____________▌");
}

#[test]
fn find_style_gives_the_place_in_the_table() {
    assert_eq!(find_style("dots"), Some(0));
    assert_eq!(find_style("line"), Some(12));
    assert_eq!(find_style("arc"), Some(30));
    assert_eq!(find_style("pong"), Some(53));
    assert_eq!(find_style("shark"), Some(54));
    assert_eq!(find_style(""), None);
    assert_eq!(find_style("Dots"), None);
    assert_eq!(find_style("dots "), None);
}

#[test]
fn style_entries_hold_name_interval_and_frames() {
    let dots = style_at(0);
    assert_eq!(dots.name, "dots");
    assert_eq!(dots.interval_ms, 80);
    assert_eq!(dots.frames.len(), 10);
    assert_eq!(dots.frames[0], "⠋");
    let line = style_at(12);
    assert_eq!(line.interval_ms, 130);
    let toggle6 = style_at(find_style("toggle6").unwrap());
    assert_eq!(toggle6.interval_ms, 300);
    assert_eq!(toggle6.frames, &["ဝ", "၀"]);
    assert_eq!(style_at(STYLE_COUNT - 1).name, "shark");
}

#[test]
fn style_names_are_found_where_they_stand() {
    for i in 0..STYLE_COUNT {
        let name = style_at(i).name;
        assert_eq!(find_style(name), Some(i));
    }
}

#[test]
fn demo_shows_each_style_with_its_name() {
    assert_eq!(demo_step(0), Some((0, "dots")));
    assert_eq!(demo_step(54), Some((54, "shark")));
    assert_eq!(demo_step(STYLE_COUNT), None);
    assert_eq!(DEMO_PAUSE_MS, 2000);
}

#[test]
fn style_names_are_distinct() {
    for i in 0..STYLE_COUNT {
        for j in 0..STYLE_COUNT {
            if i != j {
                assert_ne!(style_at(i).name, style_at(j).name);
            }
        }
    }
}

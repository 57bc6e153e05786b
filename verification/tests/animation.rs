use revolver::animation::{
    choose_cols, clear_line, fit_message, next_sleep_chunk, Animation, FALLBACK_COLS,
    SLEEP_STEP_MS,
};

#[test]
fn each_tick_draws_a_frame_and_moves_on() {
    let mut a = Animation::for_style(12); // line
    assert_eq!(a.delay_ms(), 130);
    let l1 = a.tick("Working", 10);
    assert_eq!(l1, "\r          \r- \x1b[0;38;5;242mWorkin\x1b[0;m\r");
    let l2 = a.tick("Working", 10);
    assert_eq!(l2, "\r          \r\\ \x1b[0;38;5;242mWorkin\x1b[0;m\r");
    let l3 = a.tick("", 4);
    assert_eq!(l3, "\r    \r| \x1b[0;38;5;242m\x1b[0;m\r");
    let l4 = a.tick("ok", 80);
    assert!(l4.ends_with("/ \x1b[0;38;5;242mok\x1b[0;m\r"));
    let l5 = a.tick("ok", 6);
    assert_eq!(l5, "\r      \r- \x1b[0;38;5;242mok\x1b[0;m\r");
}

#[test]
fn frames_come_back_after_a_full_cycle() {
    let mut a = Animation::for_style(53); // pong, 30 frames
    let first = a.tick("m", 20);
    for _ in 0..29 {
        a.tick("m", 20);
    }
    assert_eq!(a.tick("m", 20), first);
}

#[test]
fn fallback_delay_for_a_non_positive_interval() {
    let a = Animation::new(0, vec!["x".to_string()]);
    assert_eq!(a.delay_ms(), 100);
    let mut b = Animation::new(7, vec!["x".to_string(), "y".to_string()]);
    assert_eq!(b.delay_ms(), 7);
    assert!(b.tick("", 0).contains("\rx "));
    assert!(b.tick("", 0).contains("\ry "));
    assert!(b.tick("", 0).contains("\rx "));
}

#[test]
fn message_is_cut_to_the_width() {
    assert_eq!(fit_message("héllo wörld", 9), "héllo");
    assert_eq!(fit_message("héllo wörld", 80), "héllo wörld");
    assert_eq!(fit_message("abc", 7), "abc");
    assert_eq!(fit_message("abcd", 7), "abc");
    assert_eq!(fit_message("abc", 3), "");
    assert_eq!(fit_message("abc", 0), "");
}

#[test]
fn clearing_blanks_the_line() {
    assert_eq!(clear_line(3), "\r   \r");
    assert_eq!(clear_line(0), "\r\r");
}

#[test]
fn sleep_goes_in_steps_and_adds_up() {
    assert_eq!(SLEEP_STEP_MS, 20);
    assert_eq!(next_sleep_chunk(130, 0), Some(20));
    assert_eq!(next_sleep_chunk(130, 120), Some(10));
    assert_eq!(next_sleep_chunk(130, 130), None);
    assert_eq!(next_sleep_chunk(0, 0), None);
    let mut slept = 0;
    let mut steps = 0;
    while let Some(c) = next_sleep_chunk(130, slept) {
        assert!(c > 0 && c <= 20);
        slept += c;
        steps += 1;
    }
    assert_eq!(slept, 130);
    assert_eq!(steps, 7);
}

#[test]
fn terminal_width_is_the_first_positive_reading() {
    assert_eq!(choose_cols(&vec![None, Some(0), Some(120), Some(90)]), 120);
    assert_eq!(choose_cols(&vec![Some(33)]), 33);
    assert_eq!(choose_cols(&vec![]), FALLBACK_COLS);
    assert_eq!(choose_cols(&vec![Some(0), None, None]), 80);
}

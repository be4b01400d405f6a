use eink::capture::{
    capture_size_usable, chars_of, find_window, is_visible_style, keep_capturing_after_timeout,
    monitor_index, new_windows, query_outcome, read_selection, window_title_matches, white_space,
    Args, Bounds, CaptureMode, CaptureTracker, MonitorSelectError, QueryOutcome, SelectionInput,
    window_text_from_buffer, WindowTextError, on_size_poll, candidate_windows, WindowEntry, launch_timed_out, LaunchStep, SizeCheck,
};

fn args() -> Args {
    Args { window_id: None, window_title: None, monitor: None, primary: false, x: None, y: None }
}

#[test]
fn mode_priorities() {
    let mut a = args();
    assert!(matches!(CaptureMode::from_args(&a), CaptureMode::Primary));
    a.monitor = Some(2);
    assert!(matches!(CaptureMode::from_args(&a), CaptureMode::Monitor(2)));
    a.window_title = Some("*note".to_string());
    match CaptureMode::from_args(&a) {
        CaptureMode::WindowTitle(q) => assert_eq!(q, "*note"),
        _ => panic!("expected a title query"),
    }
    a.window_id = Some(0x1234);
    assert!(matches!(CaptureMode::from_args(&a), CaptureMode::WindowId(0x1234)));
}

#[test]
fn monitor_numbers_start_at_one() {
    assert_eq!(monitor_index(0, 2), Err(MonitorSelectError::IdStartsWithOne));
    assert_eq!(monitor_index(3, 2), Err(MonitorSelectError::IdTooHigh));
    assert_eq!(monitor_index(1, 2), Ok(0));
    assert_eq!(monitor_index(2, 2), Ok(1));
    assert_eq!(monitor_index(1, 0), Err(MonitorSelectError::IdTooHigh));
}

#[test]
fn window_style_and_size() {
    assert!(is_visible_style(0x1000_0000));
    assert!(is_visible_style(0x1CF0_0000));
    assert!(!is_visible_style(0x0CF0_0000));
    assert!(!capture_size_usable(0, 0));
    assert!(capture_size_usable(0, 1));
    assert!(capture_size_usable(-1, 0));
}

#[test]
fn new_windows_keeps_order() {
    assert_eq!(new_windows(&vec![1, 2, 3], &vec![4, 2, 5, 1]), vec![4, 5]);
    assert_eq!(new_windows(&vec![], &vec![7]), vec![7]);
    assert!(new_windows(&vec![7], &vec![7]).is_empty());
}

#[test]
fn title_matching_is_case_insensitive_containment() {
    assert!(window_title_matches("Notepad", "notepad"));
    assert!(window_title_matches("ABC", "abc"));
    assert!(window_title_matches("Untitled - Notepad", "notepad"));
    assert!(window_title_matches("Notepad", "note"));
    assert!(!window_title_matches("Notepad", "word"));
    assert!(window_title_matches("anything", ""));
}

#[test]
fn star_is_an_ordinary_character() {
    assert!(!window_title_matches("Notepad", "*pad"));
    assert!(window_title_matches("x*pad", "*pad"));
}

#[test]
fn find_window_gives_positions() {
    let titles = vec!["Untitled - Notepad".to_string(), "Calculator".to_string(), "notepad".to_string()];
    assert_eq!(find_window(&titles, "NOTEPAD"), vec![0, 2]);
    assert!(find_window(&titles, "word").is_empty());
}

#[test]
fn query_outcomes() {
    assert_eq!(query_outcome(0), QueryOutcome::NoMatch);
    assert_eq!(query_outcome(1), QueryOutcome::Single);
    assert_eq!(query_outcome(5), QueryOutcome::Ask);
}

#[test]
fn selection_reading() {
    assert_eq!(read_selection("q", 3), SelectionInput::Quit);
    assert_eq!(read_selection("Q", 3), SelectionInput::Quit);
    assert_eq!(read_selection("2q", 3), SelectionInput::Quit);
    assert_eq!(read_selection("2", 3), SelectionInput::Choose(2));
    assert_eq!(read_selection(" 1\r\n", 3), SelectionInput::Choose(1));
    assert_eq!(read_selection("+0", 3), SelectionInput::Choose(0));
    assert_eq!(read_selection("3", 3), SelectionInput::Invalid);
    assert_eq!(read_selection("", 3), SelectionInput::Invalid);
    assert_eq!(read_selection("+", 3), SelectionInput::Invalid);
    assert_eq!(read_selection("-1", 3), SelectionInput::Invalid);
    assert_eq!(read_selection("1 2", 3), SelectionInput::Invalid);
    assert_eq!(read_selection("99999999999999999999999", 3), SelectionInput::Invalid);
}

#[test]
fn selection_matches_std_parsing() {
    for (text, count) in [("7", 10usize), ("  12 ", 20), ("+5", 6), ("x", 3), ("0", 0)] {
        let expected = match text.trim().parse::<usize>() {
            Ok(n) if n < count => SelectionInput::Choose(n),
            _ => SelectionInput::Invalid,
        };
        assert_eq!(read_selection(text, count), expected);
    }
}

#[test]
fn white_space_agrees_with_std() {
    for c in [' ', '\t', '\n', 'a', '\u{a0}', '\u{3000}', '\u{200b}', '0'] {
        assert_eq!(white_space(c), c.is_whitespace());
    }
}

#[test]
fn chars_of_text() {
    assert_eq!(chars_of("héllo"), vec!['h', 'é', 'l', 'l', 'o']);
}

#[test]
fn first_frame_creates_surface() {
    let mut t = CaptureTracker::new(0, 0);
    let p = t.on_frame(Some((10, 20)), 800, 600, 800, 600, 790, 590);
    assert!(!p.recreate_pool);
    assert_eq!(p.move_surface, None);
    assert_eq!(p.create_surface, Some(Bounds { x: 0, y: 0, width: 790, height: 590 }));
    assert_eq!(t, CaptureTracker { x: 10, y: 20, has_surface: true });
    let mut u = CaptureTracker::new(100, 50);
    let q = u.on_frame(Some((10, 20)), 800, 600, 800, 600, 790, 590);
    assert_eq!(q.create_surface, Some(Bounds { x: 100, y: 50, width: 790, height: 590 }));
}

#[test]
fn surface_goes_to_target_position() {
    let mut t = CaptureTracker::new(100, 50);
    let p = t.on_frame(None, 800, 600, 800, 600, 800, 600);
    assert_eq!(p.create_surface, Some(Bounds { x: 100, y: 50, width: 800, height: 600 }));
    let resized = t.on_frame(None, 1024, 768, 800, 600, 0, 0);
    assert_eq!(resized.move_surface, Some(Bounds { x: 100, y: 50, width: 1024, height: 768 }));
}

#[test]
fn launched_window_size_checks() {
    assert_eq!(on_size_poll(SizeCheck::First, None), LaunchStep::NextWindow { pause_ms: 10 });
    assert_eq!(on_size_poll(SizeCheck::First, Some((0, 0))), LaunchStep::NextWindow { pause_ms: 10 });
    assert_eq!(on_size_poll(SizeCheck::First, Some((640, 0))), LaunchStep::Confirm { pause_ms: 100 });
    assert_eq!(on_size_poll(SizeCheck::Confirm, Some((0, 0))), LaunchStep::NextWindow { pause_ms: 10 });
    assert_eq!(on_size_poll(SizeCheck::Confirm, Some((640, 480))), LaunchStep::Accept);
    assert!(!launch_timed_out(9, 999_999_999));
    assert!(!launch_timed_out(10, 0));
    assert!(launch_timed_out(10, 1));
    assert!(launch_timed_out(11, 0));
}

#[test]
fn moved_or_resized_window_moves_surface() {
    let mut t = CaptureTracker { x: 10, y: 20, has_surface: true };
    let still = t.on_frame(Some((10, 20)), 800, 600, 800, 600, 0, 0);
    assert_eq!((still.recreate_pool, still.move_surface, still.create_surface), (false, None, None));
    let moved = t.on_frame(Some((30, 40)), 800, 600, 800, 600, 0, 0);
    assert_eq!(moved.move_surface, Some(Bounds { x: 30, y: 40, width: 800, height: 600 }));
    assert!(!moved.recreate_pool);
    let resized = t.on_frame(None, 1024, 768, 800, 600, 0, 0);
    assert!(resized.recreate_pool);
    assert_eq!(resized.move_surface, Some(Bounds { x: 30, y: 40, width: 1024, height: 768 }));
    assert_eq!(resized.create_surface, None);
}

#[test]
fn timeout_stops_only_for_gone_window() {
    assert!(keep_capturing_after_timeout(None));
    assert!(keep_capturing_after_timeout(Some(true)));
    assert!(!keep_capturing_after_timeout(Some(false)));
}

#[test]
fn window_text_from_zeroed_buffer() {
    let mut buf = [0u8; 256];
    buf[..7].copy_from_slice(b"Notepad");
    assert_eq!(window_text_from_buffer(&buf), Ok("Notepad".to_string()));
    assert_eq!(window_text_from_buffer(&[0u8; 256]), Ok(String::new()));
    let mut utf = [0u8; 8];
    utf[..2].copy_from_slice("é".as_bytes());
    assert_eq!(window_text_from_buffer(&utf), Ok("é".to_string()));
    assert_eq!(window_text_from_buffer(&[0xFF, 0x41, 0]), Err(WindowTextError::InvalidUtf8));
    assert_eq!(window_text_from_buffer(&[0]), Ok(String::new()));
}

#[test]
fn candidate_windows_are_top_level_and_visible() {
    let entries = vec![
        WindowEntry { handle: 1, root: 1, style: 0x1000_0000 },
        WindowEntry { handle: 2, root: 1, style: 0x1000_0000 },
        WindowEntry { handle: 3, root: 3, style: 0x0000_0000 },
        WindowEntry { handle: 4, root: 4, style: 0x14CF_0000 },
    ];
    assert_eq!(candidate_windows(&entries), vec![1, 4]);
    assert!(candidate_windows(&vec![]).is_empty());
}

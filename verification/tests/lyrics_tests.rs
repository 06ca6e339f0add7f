use orpheus::chars::{chars_to_string, string_chars};
use orpheus::lyrics::{
    active_line, count_lines, line_style, parse_lyrics, parse_timed_line, timestamps_vec,
    LineStyle, LyricState, MouseEvent, MouseKind,
};
use orpheus::Rect;

fn parse(line: &str) -> Option<(u32, String)> {
    let cs = string_chars(line);
    parse_timed_line(&cs).map(|(ts, text)| (ts, chars_to_string(&text)))
}

#[test]
fn parses_time_coded_line() {
    // one minute, 2.50 seconds: 62500 milliseconds
    assert_eq!(parse("[01:02.50]Hello"), Some((62500, "Hello".to_string())));
}

#[test]
fn parses_and_trims_text() {
    assert_eq!(parse("[0:05.0]  la la  "), Some((5000, "la la".to_string())));
}

#[test]
fn fraction_is_scaled_by_digit_count() {
    assert_eq!(parse("[0:00.5]x"), Some((500, "x".to_string())));
    assert_eq!(parse("[0:00.50]x"), Some((500, "x".to_string())));
    assert_eq!(parse("[0:00.500]x"), Some((500, "x".to_string())));
}

#[test]
fn fraction_rounds_half_up_on_the_fourth_digit() {
    assert_eq!(parse("[0:01.9999]x"), Some((2000, "x".to_string())));
    assert_eq!(parse("[0:00.1234]x"), Some((123, "x".to_string())));
    assert_eq!(parse("[0:00.1235]x"), Some((124, "x".to_string())));
}

#[test]
fn malformed_lines_do_not_parse() {
    assert_eq!(parse("no timestamp"), None);
    assert_eq!(parse("[1:2]missing fraction"), None);
    assert_eq!(parse("[:02.50]missing minutes"), None);
    assert_eq!(parse("[1:02.50 no bracket"), None);
    assert_eq!(parse(""), None);
    // a timestamp past the u32 range is skipped, not wrapped
    assert_eq!(parse("[99999999999:00.0]x"), None);
}

#[test]
fn parse_lyrics_skips_malformed_and_sorts() {
    let text = string_chars("[0:10.0]ten\nnoise\n[0:02.0]two\n[0:05.0]five");
    let lines = parse_lyrics(&text);
    let ts = timestamps_vec(&lines);
    assert_eq!(ts, vec![2000, 5000, 10000]);
    assert_eq!(chars_to_string(&lines[0].text), "two");
    assert_eq!(chars_to_string(&lines[2].text), "ten");
}

#[test]
fn duplicate_timestamp_keeps_the_later_line() {
    let text = string_chars("[0:01.0]first\n[0:01.0]second");
    let lines = parse_lyrics(&text);
    assert_eq!(lines.len(), 1);
    assert_eq!(lines[0].timestamp, 1000);
    assert_eq!(chars_to_string(&lines[0].text), "second");
}

#[test]
fn timestamps_are_strictly_ascending() {
    let text = string_chars("[0:09.0]i\n[0:01.0]a\n[0:05.0]e\n[0:01.0]b");
    let ts = timestamps_vec(&parse_lyrics(&text));
    for w in ts.windows(2) {
        assert!(w[0] < w[1]);
    }
    assert_eq!(ts.len(), 3);
}

#[test]
fn active_line_picks_the_last_reached_timestamp() {
    let text = string_chars("[0:01.0]a\n[0:05.0]b\n[0:10.0]c");
    let lines = parse_lyrics(&text);
    assert_eq!(active_line(&lines, 0), None);
    assert_eq!(active_line(&lines, 999), None);
    assert_eq!(active_line(&lines, 1000), Some(0));
    assert_eq!(active_line(&lines, 4999), Some(0));
    assert_eq!(active_line(&lines, 5000), Some(1));
    assert_eq!(active_line(&lines, 10000), Some(2));
    assert_eq!(active_line(&lines, u32::MAX), Some(2));
}

#[test]
fn active_line_is_monotonic_in_time() {
    let text = string_chars("[0:01.0]a\n[0:05.0]b\n[0:10.0]c");
    let lines = parse_lyrics(&text);
    let times = [0u32, 500, 1000, 3000, 5000, 9999, 10000, 60000];
    let mut last: Option<usize> = None;
    for t in times {
        let now = active_line(&lines, t);
        match (last, now) {
            (Some(a), Some(b)) => assert!(a <= b),
            (Some(_), None) => panic!("active line went backwards"),
            _ => {}
        }
        last = now;
    }
}

#[test]
fn line_styles_partition_around_the_active_line() {
    let text = string_chars("[0:01.0]a\n[0:05.0]b\n[0:10.0]c");
    let lines = parse_lyrics(&text);
    // at 6 seconds the second line is being sung
    assert_eq!(line_style(&lines, 0, 6000), LineStyle::Sung);
    assert_eq!(line_style(&lines, 1, 6000), LineStyle::Current);
    assert_eq!(line_style(&lines, 2, 6000), LineStyle::Upcoming);
    // the last line stays current once reached
    assert_eq!(line_style(&lines, 2, 99999), LineStyle::Current);
}

#[test]
fn update_plain_counts_lines() {
    let mut ls = LyricState::new();
    ls.update("one\ntwo\nthree".to_string(), false);
    assert_eq!(ls.length, 3);
    assert!(ls.timed_lyrics.is_none());
}

#[test]
fn plain_update_clears_a_previous_time_index() {
    // a plain song after a time-coded one must not keep the old song's
    // timed lines
    let mut ls = LyricState::new();
    ls.update("[0:01.0]a\n[0:02.0]b".to_string(), true);
    assert!(ls.timed_lyrics.is_some());
    ls.update("just\nplain\ntext".to_string(), false);
    assert!(ls.timed_lyrics.is_none());
    assert!(ls.ordered_timestamps.is_none());
    assert_eq!(ls.length, 3);
}

#[test]
fn update_synced_builds_the_time_index() {
    let mut ls = LyricState::new();
    ls.update("[0:01.0]a\n[0:02.0]b".to_string(), true);
    assert_eq!(ls.length, 2);
    let ts = ls.ordered_timestamps.as_ref().unwrap();
    assert_eq!(ts, &vec![1000, 2000]);
    assert!(ls.timed_lyrics.is_some());
}

#[test]
fn reset_clears_the_index_and_scroll() {
    let mut ls = LyricState::new();
    ls.update("[0:01.0]a".to_string(), true);
    ls.offset = 3;
    ls.reset_lyrics();
    assert_eq!(ls.length, 0);
    assert_eq!(ls.offset, 0);
    assert!(ls.timed_lyrics.is_none());
    assert!(ls.ordered_timestamps.is_none());
    assert_eq!(ls.lyrics, "");
}

#[test]
fn count_lines_matches_line_breaks() {
    assert_eq!(count_lines(&string_chars("")), 0);
    assert_eq!(count_lines(&string_chars("a")), 1);
    assert_eq!(count_lines(&string_chars("a\nb")), 2);
    assert_eq!(count_lines(&string_chars("a\nb\n")), 2);
    assert_eq!(count_lines(&string_chars("a\n\nb")), 3);
}

#[test]
fn drag_scrolls_and_clamps() {
    let mut ls = LyricState::new();
    ls.length = 10;
    ls.area = Rect { x: 0, y: 0, width: 20, height: 20 };
    // press inside the viewport starts the drag
    ls.handle_scroll(&MouseEvent { kind: MouseKind::DownLeft, column: 5, row: 5 });
    assert!(ls.is_dragging);
    assert_eq!(ls.drag_start, Some(5));
    // dragging down 3 rows moves the offset
    ls.handle_scroll(&MouseEvent { kind: MouseKind::DragLeft, column: 5, row: 8 });
    assert_eq!(ls.offset, 3);
    // dragging far past the bound clamps to the length
    ls.handle_scroll(&MouseEvent { kind: MouseKind::DragLeft, column: 5, row: 200 });
    assert_eq!(ls.offset, 10);
    // each drag applies the delta from the press row to the current offset
    ls.handle_scroll(&MouseEvent { kind: MouseKind::DragLeft, column: 5, row: 0 });
    assert_eq!(ls.offset, 5);
    ls.handle_scroll(&MouseEvent { kind: MouseKind::DragLeft, column: 5, row: 0 });
    assert_eq!(ls.offset, 0);
    // and clamps at zero
    ls.handle_scroll(&MouseEvent { kind: MouseKind::DragLeft, column: 5, row: 0 });
    assert_eq!(ls.offset, 0);
    // release ends the drag
    ls.handle_scroll(&MouseEvent { kind: MouseKind::UpLeft, column: 5, row: 0 });
    assert!(!ls.is_dragging);
    assert_eq!(ls.drag_start, None);
}

#[test]
fn press_outside_the_viewport_does_not_start_a_drag() {
    let mut ls = LyricState::new();
    ls.length = 10;
    ls.area = Rect { x: 10, y: 10, width: 5, height: 5 };
    ls.handle_scroll(&MouseEvent { kind: MouseKind::DownLeft, column: 1, row: 1 });
    assert!(!ls.is_dragging);
    // drag events without a press do not move the offset
    ls.handle_scroll(&MouseEvent { kind: MouseKind::DragLeft, column: 1, row: 4 });
    assert_eq!(ls.offset, 0);
}

#[test]
fn update_time_records_progress() {
    let mut ls = LyricState::new();
    ls.update_time(&1234);
    assert_eq!(ls.current_time, 1234);
}

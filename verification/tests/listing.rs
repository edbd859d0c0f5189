use wmctrl::listing::{current_desktop, parse_row, parse_windows, split_lines};
use wmctrl::Transformation;

const FIREFOX: &str =
    "0x03200003  0 0    27   1920 1053 Navigator.Firefox     hostname Mozilla Firefox";

#[test]
fn split_lines_of_nothing() {
    assert_eq!(split_lines(""), Vec::<&str>::new());
}

#[test]
fn split_lines_ends_a_line_at_each_line_feed() {
    assert_eq!(split_lines("a\nb"), vec!["a", "b"]);
    assert_eq!(split_lines("a\nb\n"), vec!["a", "b"]);
    assert_eq!(split_lines("\n"), vec![""]);
    assert_eq!(split_lines("a\n\nb\n"), vec!["a", "", "b"]);
    assert_eq!(split_lines("one line"), vec!["one line"]);
}

#[test]
fn a_row_gives_a_window() {
    let win = parse_row(FIREFOX).expect("a window");
    assert_eq!(win.id(), "0x03200003");
    assert_eq!(win.desktop(), "0");
    assert_eq!(win.transformation(), Transformation::new(0, 27, 1920, 1053));
    assert_eq!(win.class(), "Navigator.Firefox");
    assert_eq!(win.client_machine(), "hostname");
    assert_eq!(win.title(), "Mozilla Firefox");
}

#[test]
fn the_title_keeps_its_blanks() {
    let win = parse_row("0x1 2 3 4 5 6 c.C m  a  b\t c ").expect("a window");
    assert_eq!(win.title(), "a  b\t c ");
}

#[test]
fn the_title_may_be_missing() {
    let win = parse_row("0x1 2 3 4 5 6 c.C m").expect("a window");
    assert_eq!(win.title(), "");
    assert_eq!(win.client_machine(), "m");
    let win = parse_row("0x1 2 3 4 5 6 c.C m   ").expect("a window");
    assert_eq!(win.title(), "");
}

#[test]
fn tabs_separate_columns_too() {
    let win = parse_row("\t0x1\t-1\t-3 4\t5  6\tc.C\tm\tt").expect("a window");
    assert_eq!(win.id(), "0x1");
    assert_eq!(win.desktop(), "-1");
    assert_eq!(win.transformation(), Transformation::new(-3, 4, 5, 6));
    assert_eq!(win.title(), "t");
}

#[test]
fn a_title_in_any_script_is_kept() {
    let win = parse_row("0x1 0 0 0 1 1 a.B h F\u{fc}\u{df}e \u{2013} \u{65e5}\u{672c}\u{8a9e}")
        .expect("a window");
    assert_eq!(win.title(), "F\u{fc}\u{df}e \u{2013} \u{65e5}\u{672c}\u{8a9e}");
}

#[test]
fn a_short_row_gives_no_window() {
    assert!(parse_row("").is_none());
    assert!(parse_row("   ").is_none());
    assert!(parse_row("0x1 2 3 4 5 6 c.C").is_none());
    assert!(parse_row("0x01e00003  0 hostname Terminal").is_none());
}

#[test]
fn geometry_must_be_numbers() {
    assert!(parse_row("0x1 0 x 4 5 6 c.C m t").is_none());
    assert!(parse_row("0x1 0 3 4.5 5 6 c.C m t").is_none());
    assert!(parse_row("0x1 0 3 4 +5 6 c.C m t").is_none());
    assert!(parse_row("0x1 0 3 4 5 - c.C m t").is_none());
}

#[test]
fn geometry_must_fit_in_32_bits() {
    assert!(parse_row("0x1 0 2147483648 4 5 6 c.C m t").is_none());
    assert!(parse_row("0x1 0 3 -2147483649 5 6 c.C m t").is_none());
    let win = parse_row("0x1 0 2147483647 -2147483648 5 6 c.C m t").expect("a window");
    assert_eq!(win.transformation(), Transformation::new(2147483647, -2147483648, 5, 6));
}

#[test]
fn a_window_from_a_row_is_addressed_by_its_identifier() {
    let mut win = parse_row(FIREFOX).expect("a window");
    assert_eq!(win.set_desktop("1"), "-r 0x03200003 -i -t 1");
    assert_eq!(win.desktop(), "1");
}

#[test]
fn a_table_gives_its_windows_in_order() {
    let table = format!("{}\n{}\n", FIREFOX, "0x01e00003 -1 10 20 800 600 xterm.XTerm  box  xterm");
    let windows = parse_windows(&table).expect("windows");
    assert_eq!(windows.len(), 2);
    assert_eq!(windows[0].title(), "Mozilla Firefox");
    assert_eq!(windows[1].id(), "0x01e00003");
    assert_eq!(windows[1].desktop(), "-1");
    assert_eq!(windows[1].transformation(), Transformation::new(10, 20, 800, 600));
    assert_eq!(windows[1].title(), "xterm");
}

#[test]
fn an_empty_table_has_no_windows() {
    assert_eq!(parse_windows("").expect("windows").len(), 0);
}

#[test]
fn the_last_row_needs_no_line_feed() {
    assert_eq!(parse_windows(FIREFOX).expect("windows").len(), 1);
}

#[test]
fn one_unreadable_row_spoils_the_table() {
    let table = format!("{}\nnot a row\n{}\n", FIREFOX, FIREFOX);
    assert!(parse_windows(&table).is_none());
    let table = format!("{}\n\n", FIREFOX);
    assert!(parse_windows(&table).is_none());
}

#[test]
fn the_current_desktop_is_the_marked_one() {
    let table = "0  - DG: 3840x1080  VP: N/A  WA: 0,27 3840x1053  Mail\n\
                 1  * DG: 3840x1080  VP: 0,0  WA: 0,27 3840x1053  Code\n\
                 2  - DG: 3840x1080  VP: N/A  WA: 0,27 3840x1053  Music\n";
    assert_eq!(current_desktop(table), Some(String::from("1")));
}

#[test]
fn the_first_mark_wins() {
    assert_eq!(current_desktop("3 * a\n4 * b"), Some(String::from("3")));
}

#[test]
fn a_table_without_a_mark_has_no_current_desktop() {
    assert_eq!(current_desktop(""), None);
    assert_eq!(current_desktop("0 - DG: 1x1\n1 - DG: 1x1\n"), None);
    assert_eq!(current_desktop("0 ** x\n* 1\n0\n"), None);
}

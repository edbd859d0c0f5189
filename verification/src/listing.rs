//! Reading the tables that `wmctrl` prints.
//!
//! `wmctrl -l -G -x` prints one row for each window: its identifier, its
//! desktop, its position (x, y) and size (width, height), its class, its
//! client machine and its title. The title is the rest of the row.
//!
//! `wmctrl -d` prints one row for each desktop: its number, then `*` for the
//! desktop that is shown and `-` for any other.

use vstd::prelude::*;
use crate::columns::{column, column_bounds, lemma_earlier_columns_present, rest_from};
use crate::decimal::{number_i32, parse_i32};
use crate::transformation::Transformation;
use crate::window::{Window, WindowView};

verus! {

/// The lines of `text` that start at `start`, where the characters up to
/// `at` are known to hold no line feed. A line ends before a line feed or at
/// the end of the text; a line feed at the very end starts no further line.
pub open spec fn lines_from(text: Seq<char>, start: int, at: int) -> Seq<Seq<char>>
    decreases text.len() - at,
{
    if 0 <= start <= at < text.len() {
        if text[at] == '\n' {
            seq![text.subrange(start, at)] + lines_from(text, at + 1, at + 1)
        } else {
            lines_from(text, start, at + 1)
        }
    } else if 0 <= start < text.len() {
        seq![text.subrange(start, text.len() as int)]
    } else {
        Seq::empty()
    }
}

/// The lines of `text`.
pub open spec fn lines(text: Seq<char>) -> Seq<Seq<char>> {
    lines_from(text, 0, 0)
}

/// The window that a row of the window table describes. A row describes a
/// window where it has the eight columns before the title and its position
/// and size are 32-bit integers.
pub open spec fn row_window(row: Seq<char>) -> Option<WindowView> {
    if column(row, 7).len() == 0 {
        None
    } else {
        match (
            number_i32(column(row, 2)),
            number_i32(column(row, 3)),
            number_i32(column(row, 4)),
            number_i32(column(row, 5)),
        ) {
            (Some(x), Some(y), Some(width), Some(height)) => Some(
                WindowView {
                    id: column(row, 0),
                    desktop: column(row, 1),
                    client_machine: column(row, 7),
                    title: rest_from(row, 8),
                    transformation: Transformation { gravity: 0, x, y, width, height },
                    class: column(row, 6),
                },
            ),
            _ => None,
        }
    }
}

/// Whether a row of the desktop table marks its desktop as the one shown.
pub open spec fn marks_current(row: Seq<char>) -> bool {
    column(row, 1) == seq!['*']
}

/// Splits `text` into its lines.
pub fn split_lines(text: &str) -> (rows: Vec<&str>)
    ensures
        rows.len() == lines(text@).len(),
        forall|i: int| 0 <= i < rows.len() ==> (#[trigger] rows[i])@ == lines(text@)[i],
{
    let len: usize = text.unicode_len();
    let mut rows: Vec<&str> = Vec::new();
    let mut start: usize = 0;
    let mut at: usize = 0;
    let ghost mut done: Seq<Seq<char>> = Seq::empty();
    while at < len
        invariant
            len == text@.len(),
            start <= at <= len,
            lines(text@) == done + lines_from(text@, start as int, at as int),
            rows.len() == done.len(),
            forall|i: int| 0 <= i < rows.len() ==> (#[trigger] rows[i])@ == done[i],
        decreases len - at,
    {
        if text.get_char(at) == '\n' {
            let row = text.substring_char(start, at);
            proof {
                let rest = lines_from(text@, at + 1, at + 1);
                assert(done + (seq![row@] + rest) =~= done.push(row@) + rest);
                done = done.push(row@);
            }
            rows.push(row);
            start = at + 1;
        }
        at += 1;
    }
    if start < len {
        let row = text.substring_char(start, len);
        proof {
            assert(done + seq![row@] =~= done.push(row@));
            done = done.push(row@);
        }
        rows.push(row);
    } else {
        assert(done + Seq::<Seq<char>>::empty() =~= done);
    }
    rows
}

/// Reads one row of the window table.
pub fn parse_row(row: &str) -> (window: Option<Window>)
    ensures
        match window {
            Some(w) => row_window(row@) == Some(w@),
            None => row_window(row@) is None,
        },
{
    let len: usize = row.unicode_len();
    let bounds = column_bounds(row, 9);
    if bounds[7].0 == bounds[7].1 {
        return None;
    }
    let x = parse_i32(row.substring_char(bounds[2].0, bounds[2].1));
    let y = parse_i32(row.substring_char(bounds[3].0, bounds[3].1));
    let width = parse_i32(row.substring_char(bounds[4].0, bounds[4].1));
    let height = parse_i32(row.substring_char(bounds[5].0, bounds[5].1));
    match (x, y, width, height) {
        (Some(x), Some(y), Some(width), Some(height)) => Some(
            Window::new(
                String::from_str(row.substring_char(bounds[0].0, bounds[0].1)),
                String::from_str(row.substring_char(bounds[1].0, bounds[1].1)),
                String::from_str(row.substring_char(bounds[7].0, bounds[7].1)),
                String::from_str(row.substring_char(bounds[8].0, len)),
                Transformation::new(x, y, width, height),
                String::from_str(row.substring_char(bounds[6].0, bounds[6].1)),
            ),
        ),
        _ => None,
    }
}

/// Reads the window table: one window for each line of `listing`, in the
/// order of the lines. There is no result where a line describes no window.
pub fn parse_windows(listing: &str) -> (windows: Option<Vec<Window>>)
    ensures
        match windows {
            Some(ws) => {
                &&& ws.len() == lines(listing@).len()
                &&& forall|i: int|
                    0 <= i < ws.len() ==> row_window(lines(listing@)[i]) == Some(
                        (#[trigger] ws[i])@,
                    )
            },
            None => exists|i: int|
                0 <= i < lines(listing@).len() && row_window(#[trigger] lines(listing@)[i])
                    is None,
        },
{
    let rows = split_lines(listing);
    let mut windows: Vec<Window> = Vec::new();
    let mut k: usize = 0;
    while k < rows.len()
        invariant
            k <= rows.len(),
            rows.len() == lines(listing@).len(),
            forall|i: int| 0 <= i < rows.len() ==> (#[trigger] rows[i])@ == lines(listing@)[i],
            windows.len() == k,
            forall|i: int|
                0 <= i < k ==> row_window(lines(listing@)[i]) == Some((#[trigger] windows[i])@),
        decreases rows.len() - k,
    {
        match parse_row(rows[k]) {
            Some(window) => {
                windows.push(window);
            },
            None => {
                assert(row_window(lines(listing@)[k as int]) is None);
                return None;
            },
        }
        k += 1;
    }
    Some(windows)
}

/// Finds the desktop that is shown in the desktop table: the number of the
/// first row that is marked with `*`.
pub fn current_desktop(listing: &str) -> (desktop: Option<String>)
    ensures
        match desktop {
            Some(d) => exists|i: int|
                {
                    &&& 0 <= i < lines(listing@).len()
                    &&& marks_current(#[trigger] lines(listing@)[i])
                    &&& d@ == column(lines(listing@)[i], 0)
                    &&& forall|j: int| 0 <= j < i ==> !marks_current(#[trigger] lines(listing@)[j])
                },
            None => forall|i: int|
                0 <= i < lines(listing@).len() ==> !marks_current(#[trigger] lines(listing@)[i]),
        },
{
    let rows = split_lines(listing);
    let mut k: usize = 0;
    while k < rows.len()
        invariant
            k <= rows.len(),
            rows.len() == lines(listing@).len(),
            forall|i: int| 0 <= i < rows.len() ==> (#[trigger] rows[i])@ == lines(listing@)[i],
            forall|j: int| 0 <= j < k ==> !marks_current(#[trigger] lines(listing@)[j]),
        decreases rows.len() - k,
    {
        let row = rows[k];
        let bounds = column_bounds(row, 2);
        let mark = row.substring_char(bounds[1].0, bounds[1].1);
        if mark.unicode_len() == 1 && mark.get_char(0) == '*' {
            assert(mark@ =~= seq!['*']);
            assert(marks_current(lines(listing@)[k as int]));
            return Some(String::from_str(row.substring_char(bounds[0].0, bounds[0].1)));
        }
        assert(!marks_current(lines(listing@)[k as int]));
        k += 1;
    }
    None
}

/// Whether `line` holds no line feed.
pub open spec fn no_line_feed(line: Seq<char>) -> bool {
    forall|i: int| 0 <= i < line.len() ==> #[trigger] line[i] != '\n'
}

/// Lines that are split off behind a stretch without a line feed hold no
/// line feed.
pub proof fn lemma_lines_from_hold_no_line_feed(text: Seq<char>, start: int, at: int)
    requires
        0 <= start <= at <= text.len(),
        forall|i: int| start <= i < at ==> #[trigger] text[i] != '\n',
    ensures
        forall|k: int|
            0 <= k < lines_from(text, start, at).len() ==> no_line_feed(
                #[trigger] lines_from(text, start, at)[k],
            ),
    decreases text.len() - at,
{
    let all = lines_from(text, start, at);
    if at < text.len() {
        if text[at] == '\n' {
            let rest = lines_from(text, at + 1, at + 1);
            lemma_lines_from_hold_no_line_feed(text, at + 1, at + 1);
            assert(no_line_feed(text.subrange(start, at)));
            assert forall|k: int| 0 <= k < all.len() implies no_line_feed(#[trigger] all[k]) by {
                if k > 0 {
                    assert(all[k] == rest[k - 1]);
                }
            }
        } else {
            lemma_lines_from_hold_no_line_feed(text, start, at + 1);
            assert(all == lines_from(text, start, at + 1));
        }
    } else if start < text.len() {
        assert(no_line_feed(text.subrange(start, text.len() as int)));
        assert(all[0] == text.subrange(start, text.len() as int));
    }
}

/// No line of a text holds a line feed.
pub proof fn lemma_lines_hold_no_line_feed(text: Seq<char>)
    ensures
        forall|k: int| 0 <= k < lines(text).len() ==> no_line_feed(#[trigger] lines(text)[k]),
{
    lemma_lines_from_hold_no_line_feed(text, 0, 0);
}

/// A row that describes a window has each of the eight columns before the
/// title.
pub proof fn lemma_window_row_has_columns(row: Seq<char>, k: nat)
    requires
        row_window(row) is Some,
        k < 8,
    ensures
        column(row, k).len() > 0,
{
    lemma_earlier_columns_present(row, k, 7);
}

} // verus!

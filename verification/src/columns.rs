//! Columns of a row of `wmctrl` output.
//!
//! A row is a sequence of columns separated by runs of blanks. The last
//! column of a table may itself hold blanks: it is the rest of the row.

use vstd::prelude::*;

verus! {

/// Whether `c` separates columns.
pub open spec fn is_blank(c: char) -> bool {
    c == ' ' || c == '\t'
}

/// The first position at or after `from` that holds no blank, or the end of
/// the row.
pub open spec fn skip_blanks(row: Seq<char>, from: int) -> int
    decreases row.len() - from,
{
    if 0 <= from < row.len() && is_blank(row[from]) {
        skip_blanks(row, from + 1)
    } else {
        from
    }
}

/// The first position at or after `from` that holds a blank, or the end of
/// the row.
pub open spec fn skip_column(row: Seq<char>, from: int) -> int
    decreases row.len() - from,
{
    if 0 <= from < row.len() && !is_blank(row[from]) {
        skip_column(row, from + 1)
    } else {
        from
    }
}

/// Where column `k` of the row starts, counting from 0. A row with fewer
/// columns has the missing ones start at its end.
pub open spec fn column_start(row: Seq<char>, k: nat) -> int
    decreases k,
{
    if k == 0 {
        skip_blanks(row, 0)
    } else {
        skip_blanks(row, skip_column(row, column_start(row, (k - 1) as nat)))
    }
}

/// Where column `k` of the row ends.
pub open spec fn column_end(row: Seq<char>, k: nat) -> int {
    skip_column(row, column_start(row, k))
}

/// Column `k` of the row; empty where the row has fewer columns.
pub open spec fn column(row: Seq<char>, k: nat) -> Seq<char> {
    row.subrange(column_start(row, k), column_end(row, k))
}

/// The row from the start of column `k` to its end, blanks included.
pub open spec fn rest_from(row: Seq<char>, k: nat) -> Seq<char> {
    row.subrange(column_start(row, k), row.len() as int)
}

/// Whether `c` separates columns.
pub fn blank(c: char) -> (b: bool)
    ensures
        b == is_blank(c),
{
    c == ' ' || c == '\t'
}

/// Finds the first position at or after `from` that holds no blank.
/// `len` is the number of characters of the row.
pub fn after_blanks(row: &str, len: usize, from: usize) -> (at: usize)
    requires
        len == row@.len(),
        from <= len,
    ensures
        at == skip_blanks(row@, from as int),
        from <= at <= len,
{
    let mut at: usize = from;
    while at < len && blank(row.get_char(at))
        invariant
            len == row@.len(),
            from <= at <= len,
            skip_blanks(row@, from as int) == skip_blanks(row@, at as int),
        decreases len - at,
    {
        at += 1;
    }
    at
}

/// Finds the first position at or after `from` that holds a blank.
/// `len` is the number of characters of the row.
pub fn after_column(row: &str, len: usize, from: usize) -> (at: usize)
    requires
        len == row@.len(),
        from <= len,
    ensures
        at == skip_column(row@, from as int),
        from <= at <= len,
{
    let mut at: usize = from;
    while at < len && !blank(row.get_char(at))
        invariant
            len == row@.len(),
            from <= at <= len,
            skip_column(row@, from as int) == skip_column(row@, at as int),
        decreases len - at,
    {
        at += 1;
    }
    at
}

/// The bounds of the first `count` columns of a row: for each column where
/// it starts and where it ends.
pub fn column_bounds(row: &str, count: usize) -> (bounds: Vec<(usize, usize)>)
    ensures
        bounds.len() == count,
        forall|k: int|
            0 <= k < count ==> {
                &&& (#[trigger] bounds[k]).0 == column_start(row@, k as nat)
                &&& bounds[k].1 == column_end(row@, k as nat)
                &&& bounds[k].0 <= bounds[k].1 <= row@.len()
            },
{
    let len: usize = row.unicode_len();
    let mut bounds: Vec<(usize, usize)> = Vec::new();
    let mut at: usize = 0;
    while bounds.len() < count
        invariant
            len == row@.len(),
            at <= len,
            bounds.len() <= count,
            at == (if bounds.len() == 0 {
                0
            } else {
                column_end(row@, (bounds.len() - 1) as nat)
            }),
            forall|k: int|
                0 <= k < bounds.len() ==> {
                    &&& (#[trigger] bounds[k]).0 == column_start(row@, k as nat)
                    &&& bounds[k].1 == column_end(row@, k as nat)
                    &&& bounds[k].0 <= bounds[k].1 <= row@.len()
                },
        decreases count - bounds.len(),
    {
        let start: usize = after_blanks(row, len, at);
        let end: usize = after_column(row, len, start);
        bounds.push((start, end));
        at = end;
    }
    bounds
}

/// Skipping blanks stays inside the row, passes over blanks only and stops
/// at the end of the row or at a character that is no blank.
pub proof fn lemma_skip_blanks(row: Seq<char>, from: int)
    requires
        0 <= from <= row.len(),
    ensures
        from <= skip_blanks(row, from) <= row.len(),
        skip_blanks(row, from) < row.len() ==> !is_blank(row[skip_blanks(row, from)]),
        forall|i: int| from <= i < skip_blanks(row, from) ==> is_blank(#[trigger] row[i]),
    decreases row.len() - from,
{
    if from < row.len() && is_blank(row[from]) {
        lemma_skip_blanks(row, from + 1);
    }
}

/// Skipping a column stays inside the row, passes over no blank and stops at
/// the end of the row or at a blank.
pub proof fn lemma_skip_column(row: Seq<char>, from: int)
    requires
        0 <= from <= row.len(),
    ensures
        from <= skip_column(row, from) <= row.len(),
        skip_column(row, from) < row.len() ==> is_blank(row[skip_column(row, from)]),
        forall|i: int| from <= i < skip_column(row, from) ==> !is_blank(#[trigger] row[i]),
    decreases row.len() - from,
{
    if from < row.len() && !is_blank(row[from]) {
        lemma_skip_column(row, from + 1);
    }
}

/// Every column lies inside the row, and starts at a character that is no
/// blank unless it starts at the end of the row.
pub proof fn lemma_column_bounds(row: Seq<char>, k: nat)
    ensures
        0 <= column_start(row, k) <= column_end(row, k) <= row.len(),
        column_start(row, k) < row.len() ==> !is_blank(row[column_start(row, k)]),
    decreases k,
{
    if k == 0 {
        lemma_skip_blanks(row, 0);
    } else {
        lemma_column_bounds(row, (k - 1) as nat);
        lemma_skip_blanks(row, column_end(row, (k - 1) as nat));
    }
    lemma_skip_column(row, column_start(row, k));
}

/// No column holds a blank.
pub proof fn lemma_column_holds_no_blank(row: Seq<char>, k: nat)
    ensures
        forall|i: int| 0 <= i < column(row, k).len() ==> !is_blank(#[trigger] column(row, k)[i]),
{
    lemma_column_bounds(row, k);
    lemma_skip_column(row, column_start(row, k));
    assert forall|i: int| 0 <= i < column(row, k).len() implies !is_blank(
        #[trigger] column(row, k)[i],
    ) by {
        assert(column(row, k)[i] == row[column_start(row, k) + i]);
    }
}

/// A row that has a column has all the columns before it: where column `k`
/// is not empty, no column `j` before it is.
pub proof fn lemma_earlier_columns_present(row: Seq<char>, j: nat, k: nat)
    requires
        j <= k,
        column(row, k).len() > 0,
    ensures
        column(row, j).len() > 0,
    decreases k - j,
{
    if j < k {
        lemma_earlier_columns_present(row, j + 1, k);
        lemma_column_bounds(row, j);
        lemma_column_bounds(row, j + 1);
        if column(row, j).len() == 0 {
            // An empty column starts at the end of the row, and so does the next.
            lemma_skip_column(row, column_start(row, j));
            assert(column_start(row, j) == row.len());
            assert(column_start(row, j + 1) == skip_blanks(row, column_end(row, j)));
            assert(column(row, j + 1).len() == 0);
        }
    }
}

} // verus!

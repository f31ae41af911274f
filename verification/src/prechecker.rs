//! The check of a solution against the source it was to be written into:
//! outside the lines that were left to be filled in, the solution has to
//! read as the source does.

use crate::checker::artifact::same_bytes;
use vstd::prelude::*;

verus! {

/// The lines of `text`: what stands between its line feeds, before the
/// first and behind the last. A text without a line feed is one line.
pub open spec fn lines_of(text: Seq<u8>) -> Seq<Seq<u8>>
    decreases text.len(),
{
    if text.len() == 0 {
        seq![Seq::empty()]
    } else {
        let before = lines_of(text.drop_last());
        if text.last() == 10u8 {
            before.push(Seq::empty())
        } else {
            before.update(before.len() - 1, before.last().push(text.last()))
        }
    }
}

/// The contents of `rows`, in order.
pub open spec fn rows_of(rows: Seq<Vec<u8>>) -> Seq<Seq<u8>> {
    Seq::new(rows.len(), |i: int| rows[i]@)
}

/// A text has at least one line.
pub proof fn lemma_lines_of_len(text: Seq<u8>)
    ensures
        lines_of(text).len() >= 1,
    decreases text.len(),
{
    if text.len() > 0 {
        lemma_lines_of_len(text.drop_last());
    }
}

/// Splits `text` into its lines.
pub fn split_lines(text: &[u8]) -> (rows: Vec<Vec<u8>>)
    ensures
        rows_of(rows@) == lines_of(text@),
{
    let mut rows: Vec<Vec<u8>> = Vec::new();
    let mut row: Vec<u8> = Vec::new();
    let mut i: usize = 0;
    proof {
        assert(text@.take(0) =~= Seq::<u8>::empty());
        assert(rows_of(rows@).push(row@) =~= lines_of(text@.take(0)));
    }
    while i < text.len()
        invariant
            i <= text.len(),
            rows_of(rows@).push(row@) == lines_of(text@.take(i as int)),
        decreases text.len() - i,
    {
        proof {
            assert(text@.take(i as int + 1).drop_last() =~= text@.take(i as int));
            assert(text@.take(i as int + 1).last() == text@[i as int]);
        }
        let ghost before = rows_of(rows@).push(row@);
        if text[i] == 10u8 {
            let ghost done = row;
            rows.push(row);
            row = Vec::new();
            proof {
                assert(rows_of(rows@) =~= before);
                assert(rows_of(rows@).push(row@) =~= lines_of(text@.take(i as int + 1)));
            }
        } else {
            row.push(text[i]);
            proof {
                assert(rows_of(rows@).push(row@) =~= before.update(
                    before.len() - 1,
                    before.last().push(text@[i as int]),
                ));
            }
        }
        i += 1;
    }
    proof {
        assert(text@.take(text.len() as int) =~= text@);
        assert(rows_of(rows@.push(row)) =~= rows_of(rows@).push(row@));
    }
    rows.push(row);
    rows
}

/// The mark of a check that cannot be made: a range of lines that begins
/// or ends at line 0 or that there is none of, or a line looked for where
/// the text has none.
#[derive(Debug, Clone, Copy, PartialEq, Eq, Structural)]
pub struct OutOfRange;

/// Whether every one of `ranges` begins and ends at a line from 1 on.
pub open spec fn counted_from_one(ranges: Seq<(usize, usize)>) -> bool {
    forall|n: int| 0 <= n < ranges.len() ==> (#[trigger] ranges[n]).0 >= 1 && ranges[n].1 >= 1
}

/// The check from the point on where line `i` of the source is held
/// against line `j` of the solution and the range `k` is the one to fill
/// in. Lines and ranges are counted from 0 here; `ranges` are counted from
/// 1.
///
/// The check is over, with nothing found, once `i` is past the lines of
/// the solution or `j` past those of the source. Two lines that are the
/// same are passed, and the next range is turned to once `i` is behind the
/// present one. Where they differ, an empty line of the solution is passed
/// over; a difference outside the range is reported as `i` and `j + 1`;
/// inside the range, a line of the solution that is the one of the source
/// two behind the end of the range closes the range, after which the
/// source is read on from two lines behind that end; any other is reported
/// as `i + 1` and `j`.
pub open spec fn walk(
    solution: Seq<Seq<u8>>,
    source: Seq<Seq<u8>>,
    ranges: Seq<(usize, usize)>,
    i: int,
    j: int,
    k: int,
) -> Result<Option<(usize, usize)>, OutOfRange>
    decreases source.len() - j,
{
    if !(0 <= i < solution.len() && 0 <= j < source.len()) {
        Ok(None)
    } else if !(j < solution.len() && i < source.len()) {
        Err(OutOfRange)
    } else if solution[j] != source[i] {
        if solution[j].len() == 0 {
            walk(solution, source, ranges, i, j + 1, k)
        } else if !(0 <= k < ranges.len()) {
            Err(OutOfRange)
        } else if i < ranges[k].0 - 1 || i > ranges[k].1 - 1 {
            Ok(Some((i as usize, (j + 1) as usize)))
        } else if !(ranges[k].1 < source.len()) {
            Err(OutOfRange)
        } else if solution[j] == source[ranges[k].1 as int] {
            walk(
                solution,
                source,
                ranges,
                ranges[k].1 + 1,
                j + 1,
                if k + 1 < ranges.len() {
                    k + 1
                } else {
                    k
                },
            )
        } else {
            Ok(Some(((i + 1) as usize, j as usize)))
        }
    } else if !(0 <= k < ranges.len()) {
        Err(OutOfRange)
    } else {
        walk(
            solution,
            source,
            ranges,
            i + 1,
            j + 1,
            if i > ranges[k].1 - 1 && k + 1 < ranges.len() {
                k + 1
            } else {
                k
            },
        )
    }
}

/// What the check of `solution` against `source` finds, where `ranges` are
/// the lines left to be filled in: nothing, or the two lines at which the
/// solution leaves the source; or that the check cannot be made.
pub open spec fn precheck(solution: Seq<u8>, source: Seq<u8>, ranges: Seq<(usize, usize)>) -> Result<
    Option<(usize, usize)>,
    OutOfRange,
> {
    if counted_from_one(ranges) {
        walk(lines_of(solution), lines_of(source), ranges, 0, 0, 0)
    } else {
        Err(OutOfRange)
    }
}

/// Tells whether every one of `ranges` begins and ends at a line from 1
/// on.
fn from_one(ranges: &Vec<(usize, usize)>) -> (all: bool)
    ensures
        all == counted_from_one(ranges@),
{
    let mut n: usize = 0;
    while n < ranges.len()
        invariant
            n <= ranges.len(),
            forall|m: int| 0 <= m < n ==> (#[trigger] ranges@[m]).0 >= 1 && ranges@[m].1 >= 1,
        decreases ranges.len() - n,
    {
        if ranges[n].0 == 0 || ranges[n].1 == 0 {
            return false;
        }
        n += 1;
    }
    true
}

/// Checks `solution` against `source`, where `ranges` are the lines left to
/// be filled in, and says so where the check cannot be made.
pub fn try_prechecker(solution: &[u8], source: &[u8], ranges: &Vec<(usize, usize)>) -> (found:
    Result<Option<(usize, usize)>, OutOfRange>)
    ensures
        found == precheck(solution@, source@, ranges@),
{
    if !from_one(ranges) {
        return Err(OutOfRange);
    }
    let solution_lines = split_lines(solution);
    let source_lines = split_lines(source);
    let mut i: usize = 0;
    let mut j: usize = 0;
    let mut k: usize = 0;
    while i < solution_lines.len() && j < source_lines.len()
        invariant
            counted_from_one(ranges@),
            rows_of(solution_lines@) == lines_of(solution@),
            rows_of(source_lines@) == lines_of(source@),
            precheck(solution@, source@, ranges@) == walk(
                lines_of(solution@),
                lines_of(source@),
                ranges@,
                i as int,
                j as int,
                k as int,
            ),
        decreases source_lines.len() - j,
    {
        if j >= solution_lines.len() || i >= source_lines.len() {
            return Err(OutOfRange);
        }
        proof {
            assert(rows_of(solution_lines@)[j as int] == solution_lines@[j as int]@);
            assert(rows_of(source_lines@)[i as int] == source_lines@[i as int]@);
        }
        if !same_bytes(&solution_lines[j], &source_lines[i]) {
            if solution_lines[j].len() == 0 {
                j += 1;
                continue ;
            }
            if k >= ranges.len() {
                return Err(OutOfRange);
            }
            let first = ranges[k].0 - 1;
            let last = ranges[k].1 - 1;
            if i < first || i > last {
                return Ok(Some((i, j + 1)));
            }
            if ranges[k].1 >= source_lines.len() {
                return Err(OutOfRange);
            }
            proof {
                assert(rows_of(source_lines@)[ranges@[k as int].1 as int]
                    == source_lines@[ranges@[k as int].1 as int]@);
            }
            if same_bytes(&solution_lines[j], &source_lines[ranges[k].1]) {
                i = ranges[k].1 + 1;
                j += 1;
                if k + 1 < ranges.len() {
                    k += 1;
                }
                continue ;
            }
            return Ok(Some((i + 1, j)));
        }
        if k >= ranges.len() {
            return Err(OutOfRange);
        }
        if i > ranges[k].1 - 1 && k + 1 < ranges.len() {
            k += 1;
        }
        i += 1;
        j += 1;
    }
    Ok(None)
}

/// Checks `solution` against `source`, where `ranges` are the lines left to
/// be filled in: gives nothing where the solution reads as the source does
/// outside those lines, and otherwise the two lines at which it leaves the
/// source.
pub fn prechecker(solution: &[u8], source: &[u8], ranges: &Vec<(usize, usize)>) -> (found: Option<
    (usize, usize),
>)
    requires
        precheck(solution@, source@, ranges@) is Ok,
    ensures
        precheck(solution@, source@, ranges@) == Ok::<Option<(usize, usize)>, OutOfRange>(found),
{
    match try_prechecker(solution, source, ranges) {
        Ok(found) => found,
        Err(_) => None,
    }
}

} // verus!

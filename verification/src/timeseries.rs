//! The row-major-to-column-major reshape of the raw data block.
//!
//! The container stores the block row-major (all columns for t = 0, then
//! all columns for t = 1, ...), while the domain model wants one
//! contiguous series per raw column; `transpose` is that reshape, stated
//! and checked on its own, independent of any file access.

use crate::domain::TimeSeriesData;
use crate::error::DecodeError;
use crate::raw::RawMatrix;
use vstd::prelude::*;

verus! {

/// Column `c` of the block, read top to bottom: one contiguous time
/// series of one raw column.
pub fn matrix_column(m: &RawMatrix, c: usize) -> (r: Vec<u64>)
    requires
        m.wf(),
        c < m.cols,
    ensures
        r@ == m.spec_column(c as int),
{
    let mut r: Vec<u64> = Vec::new();
    for t in 0..m.rows
        invariant
            m.wf(),
            c < m.cols,
            r@ == m.spec_column(c as int).take(t as int),
    {
        let v = m.get(t, c);
        r.push(v);
        proof {
            assert(r@ =~= m.spec_column(c as int).take(t + 1));
        }
    }
    proof {
        assert(r@ =~= m.spec_column(c as int));
    }
    r
}

/// The full reshape: one series per raw column, each of the block's row
/// count, with `r[c][t]` equal to the stored entry at row `t`, column `c`.
pub fn transpose(m: &RawMatrix) -> (r: Vec<Vec<u64>>)
    requires
        m.wf(),
    ensures
        r@.len() == m.cols,
        forall|c: int| 0 <= c < m.cols ==> (#[trigger] r@[c])@ == m.spec_column(c),
{
    let mut r: Vec<Vec<u64>> = Vec::new();
    for c in 0..m.cols
        invariant
            m.wf(),
            r@.len() == c,
            forall|k: int| 0 <= k < c ==> (#[trigger] r@[k])@ == m.spec_column(k),
    {
        let col = matrix_column(m, c);
        r.push(col);
    }
    r
}

/// Pairs the raw block's reshaped series with the time vector.
///
/// The time axis must have one timestamp per stored row; a mismatch is a
/// structural error, since every later series would otherwise disagree
/// with the axis in length.
pub fn parse_timeseries_data(time: Vec<u64>, data: &RawMatrix) -> (r: Result<
    TimeSeriesData,
    DecodeError,
>)
    requires
        data.wf(),
    ensures
        r is Ok <==> time@.len() == data.rows,
        r matches Ok(ts) ==> {
            &&& ts.time@ == time@
            &&& ts.data@.len() == data.cols
            &&& forall|c: int| 0 <= c < data.cols ==> (#[trigger] ts.data@[c])@ == data.spec_column(c)
        },
        r matches Err(e) ==> e is StructuralError,
{
    if time.len() != data.rows {
        return Err(DecodeError::StructuralError(String::from_str(
            "time axis length does not match the data block's row count",
        )));
    }
    let series = transpose(data);
    Ok(TimeSeriesData { time, data: series })
}

} // verus!

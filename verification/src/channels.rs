//! The channel assembler: reconstructs one paired two-wavelength time
//! series per source-detector pair from the flat, wavelength-major raw
//! block and the per-measurement index table.
//!
//! The block's `2h` columns carry one wavelength in the first `h` columns
//! and the other in the second `h`, in pair order. Which half feeds the
//! oxy series of pair `i` is decided by that pair's wavelength selector:
//! the container does not guarantee that the first half is always the
//! oxy-labeled (larger) wavelength.

use crate::domain::{Channel, ChannelData};
use crate::error::DecodeError;
use crate::numfmt::{push_decimal, spec_decimal};
use crate::raw::{Measurement, RawMatrix};
use crate::timeseries::matrix_column;
use vstd::prelude::*;

verus! {

/// The raw column feeding the oxy series of pair `i`: the pair's first-
/// half column when the selector is 1, the second-half column otherwise.
pub open spec fn hbo_col(i: int, selector: usize, half: int) -> int {
    if selector == 1 {
        i
    } else {
        i + half
    }
}

/// The raw column feeding the deoxy series of pair `i`: the column its
/// oxy series does not take.
pub open spec fn hbr_col(i: int, selector: usize, half: int) -> int {
    if selector == 1 {
        i + half
    } else {
        i
    }
}

/// The channel label, `S{source}-D{detector}`, with the recorded 1-based
/// indices rendered as they stand.
pub open spec fn spec_channel_name(s: int, d: int) -> Seq<char> {
    seq!['S'] + spec_decimal(s) + seq!['-', 'D'] + spec_decimal(d)
}

/// Renders the channel label from the recorded indices.
pub fn channel_name(source_id: usize, detector_id: usize) -> (r: String)
    ensures
        r@ == spec_channel_name(source_id as int, detector_id as int),
{
    let mut s = String::from_str("S");
    proof {
        reveal_strlit("S");
        assert(s@ =~= seq!['S']);
    }
    push_decimal(&mut s, source_id);
    s.append("-D");
    proof {
        reveal_strlit("-D");
        assert("-D"@ =~= seq!['-', 'D']);
    }
    push_decimal(&mut s, detector_id);
    proof {
        assert(s@ =~= spec_channel_name(source_id as int, detector_id as int));
    }
    s
}

/// What channel `i` of an assembled recording is: identity and label
/// from measurement record `i`, and the two series moved out of the
/// selector-resolved pair of raw columns.
pub open spec fn channel_ok(c: Channel, i: int, m: Measurement, data: RawMatrix, half: int) -> bool {
    &&& c.id == i
    &&& c.source_id == m.source_index
    &&& c.detector_id == m.detector_index
    &&& c.name@ == spec_channel_name(m.source_index as int, m.detector_index as int)
    &&& c.hbo@ == data.spec_column(hbo_col(i, m.wavelength_index, half))
    &&& c.hbr@ == data.spec_column(hbr_col(i, m.wavelength_index, half))
}

/// Assembles the channel list: one channel per measurement record, its
/// two series taken from the record's selector-resolved column pair, all
/// aligned to the given time axis.
///
/// Structural errors: an odd or zero raw column count, a measurement
/// table whose length is not half the column count, or a time axis that
/// does not match the block's row count.
pub fn parse_measurement_list(
    time: Vec<u64>,
    data: &RawMatrix,
    measurements: &Vec<Measurement>,
) -> (r: Result<ChannelData, DecodeError>)
    requires
        data.wf(),
    ensures
        r is Ok <==> {
            &&& data.cols % 2 == 0
            &&& data.cols > 0
            &&& measurements@.len() == data.cols / 2
            &&& time@.len() == data.rows
        },
        r matches Ok(cd) ==> {
            &&& cd.time@ == time@
            &&& cd.channels@.len() == data.cols / 2
            &&& forall|i: int|
                0 <= i < cd.channels@.len() ==> channel_ok(
                    #[trigger] cd.channels@[i],
                    i,
                    measurements@[i],
                    *data,
                    data.cols as int / 2,
                )
            &&& cd.wf()
        },
        r matches Err(e) ==> e is StructuralError,
{
    if data.cols == 0 || data.cols % 2 != 0 {
        return Err(DecodeError::StructuralError(String::from_str(
            "the raw block's column count is zero or odd",
        )));
    }
    let half = data.cols / 2;
    if measurements.len() != half {
        return Err(DecodeError::StructuralError(String::from_str(
            "measurement record count is not half the raw column count",
        )));
    }
    if time.len() != data.rows {
        return Err(DecodeError::StructuralError(String::from_str(
            "time axis length does not match the data block's row count",
        )));
    }
    let mut channels: Vec<Channel> = Vec::new();
    for i in 0..half
        invariant
            data.wf(),
            data.cols == 2 * half,
            measurements@.len() == half,
            time@.len() == data.rows,
            channels@.len() == i,
            forall|k: int|
                0 <= k < i ==> channel_ok(
                    #[trigger] channels@[k],
                    k,
                    measurements@[k],
                    *data,
                    half as int,
                ),
            forall|k: int|
                0 <= k < i ==> (#[trigger] channels@[k]).series_len_ok(time@.len()),
    {
        let m = measurements[i];
        let (hbo_idx, hbr_idx) = if m.wavelength_index == 1 {
            (i, i + half)
        } else {
            (i + half, i)
        };
        let hbo = matrix_column(data, hbo_idx);
        let hbr = matrix_column(data, hbr_idx);
        let name = channel_name(m.source_index, m.detector_index);
        channels.push(
            Channel {
                id: i,
                name,
                source_id: m.source_index,
                detector_id: m.detector_index,
                hbo,
                hbr,
            },
        );
    }
    Ok(ChannelData { time, channels })
}

/// Which raw columns pair `i` consumes: the selector-resolved oxy and
/// deoxy columns.
pub open spec fn claims(m: Measurement, i: int, half: int, c: int) -> bool {
    c == hbo_col(i, m.wavelength_index, half) || c == hbr_col(i, m.wavelength_index, half)
}

/// Some pair among the `half` measurement records takes column `c`.
pub open spec fn some_pair_claims(ms: Seq<Measurement>, half: int, c: int) -> bool {
    exists|i: int| 0 <= i < half && #[trigger] claims(ms[i], i, half, c)
}

/// Channel assembly consumes every raw column exactly once: each of the
/// `half` pairs takes two distinct columns, every column it takes lies
/// in the block, every column of the block is taken by some pair, and no
/// column is taken by two pairs — whatever each pair's selector says.
pub proof fn lemma_columns_partition(ms: Seq<Measurement>, half: int)
    requires
        ms.len() == half,
        0 <= half,
    ensures
        forall|i: int|
            0 <= i < half ==> hbo_col(i, (#[trigger] ms[i]).wavelength_index, half) != hbr_col(
                i,
                ms[i].wavelength_index,
                half,
            ),
        forall|i: int, c: int|
            0 <= i < half && #[trigger] claims(ms[i], i, half, c) ==> 0 <= c < 2 * half,
        forall|c: int| 0 <= c < 2 * half ==> #[trigger] some_pair_claims(ms, half, c),
        forall|i: int, j: int, c: int|
            0 <= i < half && 0 <= j < half && #[trigger] claims(ms[i], i, half, c)
                && #[trigger] claims(ms[j], j, half, c) ==> i == j,
{
    assert forall|c: int| 0 <= c < 2 * half implies #[trigger] some_pair_claims(ms, half, c) by {
        let i = if c < half {
            c
        } else {
            c - half
        };
        assert(claims(ms[i], i, half, c));
    }
}

} // verus!

//! The decode orchestrator: one pure transform from a container snapshot
//! to a fully populated recording, failing fast on the first structural
//! error of a mandatory stage and never returning a partial result.

use crate::biosignals::parse_biosignals;
use crate::channels::{channel_ok, parse_measurement_list};
use crate::domain::SNIRF;
use crate::error::DecodeError;
use crate::events::{parse_events, raw_markers, sort_markers, sorted_by_onset};
use crate::metadata::{parse_metadata, spec_tags, tag_views};
use crate::probe::{optode_ok, parse_probe};
use crate::raw::RawContainer;
use crate::wavelengths::{has_two_distinct, parse_wavelenghts, sort_desc};
use vstd::prelude::*;

verus! {

/// The wavelength stage succeeds: the list is present and holds at least
/// two distinct values.
pub open spec fn wavelengths_ok(raw: RawContainer) -> bool {
    match raw.wavelengths {
        Some(ws) => has_two_distinct(ws@),
        None => false,
    }
}

/// The probe stage succeeds: all four position matrices are present,
/// each class's 2D and 3D row counts agree, and each matrix is wide
/// enough for its coordinate dimension.
pub open spec fn probe_ok(raw: RawContainer) -> bool {
    match (raw.source_pos_2d, raw.source_pos_3d, raw.detector_pos_2d, raw.detector_pos_3d) {
        (Some(s2d), Some(s3d), Some(d2d), Some(d3d)) => {
            &&& s2d.rows == s3d.rows
            &&& d2d.rows == d3d.rows
            &&& s2d.cols >= 2
            &&& s3d.cols >= 3
            &&& d2d.cols >= 2
            &&& d3d.cols >= 3
        },
        _ => false,
    }
}

/// The channel stage succeeds: time vector and raw block are present,
/// the block has a positive, even column count, one measurement record
/// stands per column pair, and the time axis matches the row count.
pub open spec fn channels_ok(raw: RawContainer) -> bool {
    match (raw.time, raw.data) {
        (Some(time), Some(data)) => {
            &&& data.cols % 2 == 0
            &&& data.cols > 0
            &&& raw.measurements@.len() == data.cols / 2
            &&& time@.len() == data.rows
        },
        _ => false,
    }
}

/// All mandatory stages succeed on this snapshot. Stimulus groups and
/// individual metadata members are best-effort and never fail; only the
/// metadata group's existence itself is required.
pub open spec fn decode_ok(raw: RawContainer) -> bool {
    &&& raw.metadata is Some
    &&& wavelengths_ok(raw)
    &&& probe_ok(raw)
    &&& channels_ok(raw)
}

/// Decodes one container snapshot into a recording.
///
/// Succeeds exactly when every mandatory stage succeeds, and then pins
/// every part of the result to its stage's statement; any failure is the
/// first failing stage's structural error, and no partial recording is
/// ever returned.
pub fn parse_snirf(raw: RawContainer) -> (r: Result<SNIRF, DecodeError>)
    requires
        raw.wf(),
    ensures
        r is Ok <==> decode_ok(raw),
        r matches Ok(s) ==> {
            &&& s.fd.path@ == raw.fd.path@
            &&& s.fd.name@ == raw.fd.name@
            &&& raw.metadata matches Some(ms) && tag_views(s.metadata.tags@) == spec_tags(ms@)
            &&& raw.wavelengths matches Some(ws) && s.wavelengths.hbo_wl == sort_desc(ws@)[0]
                && s.wavelengths.hbr_wl == sort_desc(ws@)[1]
            &&& raw.source_pos_2d matches Some(s2d) && raw.source_pos_3d matches Some(s3d)
                && raw.detector_pos_2d matches Some(d2d) && raw.detector_pos_3d matches Some(d3d)
                && s.probe.sources@.len() == s2d.rows && s.probe.detectors@.len() == d2d.rows
                && (forall|i: int|
                0 <= i < s2d.rows ==> optode_ok(#[trigger] s.probe.sources@[i], i, true, s2d, s3d))
                && (forall|i: int|
                0 <= i < d2d.rows ==> optode_ok(
                    #[trigger] s.probe.detectors@[i],
                    i,
                    false,
                    d2d,
                    d3d,
                ))
            &&& raw.time matches Some(time) && raw.data matches Some(data) && s.channels.time@
                == time@ && s.channels.channels@.len() == data.cols / 2 && (forall|i: int|
                0 <= i < s.channels.channels@.len() ==> channel_ok(
                    #[trigger] s.channels.channels@[i],
                    i,
                    raw.measurements@[i],
                    data,
                    data.cols as int / 2,
                ))
            &&& s.events.events@.len() == raw.stims@.len()
            &&& forall|i: int|
                0 <= i < raw.stims@.len() ==> {
                    &&& (#[trigger] s.events.events@[i]).name@ == raw.stims@[i].name@
                    &&& s.events.events@[i].markers@ == sort_markers(
                        raw_markers(raw.stims@[i].data),
                    )
                    &&& sorted_by_onset(s.events.events@[i].markers@)
                }
            &&& s.biosignals.time@.len() == 0
            &&& s.biosignals.auxilaries@.len() == 0
            &&& s.wf()
        },
        r matches Err(e) ==> e is StructuralError,
{
    let RawContainer {
        fd,
        time,
        data,
        wavelengths,
        source_pos_2d,
        source_pos_3d,
        detector_pos_2d,
        detector_pos_3d,
        measurements,
        stims,
        metadata,
    } = raw;

    let metadata = match metadata {
        Some(ms) => parse_metadata(&ms),
        None => {
            return Err(DecodeError::StructuralError(String::from_str(
                "the metadata group is missing",
            )));
        },
    };
    let biosignals = parse_biosignals();
    let wavelengths = match wavelengths {
        Some(ws) => match parse_wavelenghts(&ws) {
            Ok(w) => w,
            Err(e) => { return Err(e) },
        },
        None => {
            return Err(DecodeError::StructuralError(String::from_str(
                "the wavelength list is missing",
            )));
        },
    };
    let probe = match (source_pos_2d, source_pos_3d, detector_pos_2d, detector_pos_3d) {
        (Some(s2d), Some(s3d), Some(d2d), Some(d3d)) => match parse_probe(&s2d, &s3d, &d2d, &d3d) {
            Ok(p) => p,
            Err(e) => { return Err(e) },
        },
        _ => {
            return Err(DecodeError::StructuralError(String::from_str(
                "a probe position matrix is missing",
            )));
        },
    };
    let channels = match (time, data) {
        (Some(t), Some(d)) => match parse_measurement_list(t, &d, &measurements) {
            Ok(c) => c,
            Err(e) => { return Err(e) },
        },
        _ => {
            return Err(DecodeError::StructuralError(String::from_str(
                "the time vector or the raw data block is missing",
            )));
        },
    };
    let events = parse_events(&stims);
    Ok(SNIRF { fd, metadata, wavelengths, channels, probe, events, biosignals })
}

} // verus!

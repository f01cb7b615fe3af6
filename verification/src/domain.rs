//! The decoded domain model: a recording with paired per-channel series,
//! probe geometry, events and metadata.
//!
//! Series samples, coordinates and marker fields are IEEE 754 `f64` bit
//! patterns carried as `u64`: the decoder never computes with a sample, it
//! only moves, pairs and orders them, so the bit pattern is a faithful
//! carrier. Callers that need the numeric value reinterpret the bits.

use vstd::prelude::*;

verus! {

/// Identity of the container a recording was decoded from.
#[derive(Debug)]
pub struct FileDescriptor {
    pub path: String,
    pub name: String,
}

/// One free-form name/value pair from the container's metadata group.
#[derive(Debug)]
pub struct MetadataTag {
    pub name: String,
    pub value: String,
}

/// All metadata tags, in the container's member-listing order.
#[derive(Debug)]
pub struct Metadata {
    pub tags: Vec<MetadataTag>,
}

/// The two recorded wavelengths, ranked so that the numerically larger one
/// is labeled oxy (HbO) and the smaller deoxy (HbR).
#[derive(Debug)]
pub struct Wavelengths {
    pub hbo_wl: usize,
    pub hbr_wl: usize,
}

/// The raw block reshaped into one contiguous series per raw column,
/// together with the shared time axis.
#[derive(Debug)]
pub struct TimeSeriesData {
    /// Sample timestamps in seconds (`f64` bit patterns).
    pub time: Vec<u64>,
    /// One series per raw column, each of the time axis's length.
    pub data: Vec<Vec<u64>>,
}

/// One source-detector pair's two wavelength series, aligned to the
/// recording's time axis.
#[derive(Debug)]
pub struct Channel {
    /// Dense 0-based channel index.
    pub id: usize,
    /// Human-readable label, `S{source}-D{detector}`.
    pub name: String,
    /// 1-based source index, as recorded (not validated against the probe).
    pub source_id: usize,
    /// 1-based detector index, as recorded (not validated against the probe).
    pub detector_id: usize,
    /// Series of the larger (oxy-labeled) wavelength (`f64` bit patterns).
    pub hbo: Vec<u64>,
    /// Series of the smaller (deoxy-labeled) wavelength (`f64` bit patterns).
    pub hbr: Vec<u64>,
}

impl Channel {
    /// Both series are aligned to a time axis of length `n`.
    pub open spec fn series_len_ok(&self, n: nat) -> bool {
        self.hbo@.len() == n && self.hbr@.len() == n
    }
}

/// The ordered channel list together with the time axis all of its series
/// share.
#[derive(Debug)]
pub struct ChannelData {
    /// Sample timestamps in seconds (`f64` bit patterns).
    pub time: Vec<u64>,
    pub channels: Vec<Channel>,
}

impl ChannelData {
    /// Every channel's two series have the time axis's length.
    pub open spec fn wf(&self) -> bool {
        forall|i: int|
            0 <= i < self.channels@.len() ==> (#[trigger] self.channels@[i]).series_len_ok(
                self.time@.len(),
            )
    }
}

/// A 2D position (`f64` bit patterns).
#[derive(Debug)]
pub struct Vec2 {
    pub x: u64,
    pub y: u64,
}

/// A 3D position (`f64` bit patterns).
#[derive(Debug)]
pub struct Vec3 {
    pub x: u64,
    pub y: u64,
    pub z: u64,
}

/// One physical source or detector: generated name, dense 0-based index,
/// and its 2D and 3D positions, copied from the container unconverted.
#[derive(Debug)]
pub struct Optode {
    pub name: String,
    pub id: usize,
    pub pos_3d: Vec3,
    pub pos_2d: Vec2,
}

/// The probe geometry: sources and detectors are two disjoint optode
/// collections addressed by dense 0-based index.
#[derive(Debug)]
pub struct Probe {
    pub sources: Vec<Optode>,
    pub detectors: Vec<Optode>,
}

/// One discrete stimulus marker: onset, duration and value in seconds
/// (`f64` bit patterns).
#[derive(Clone, Copy, PartialEq, Eq, Structural, Debug)]
pub struct EventMarker {
    pub onset: u64,
    pub duration: u64,
    pub value: u64,
}

/// A named group of markers, ordered by non-decreasing onset.
#[derive(Debug)]
pub struct Event {
    pub name: String,
    pub markers: Vec<EventMarker>,
}

/// All stimulus groups found in the container, in discovery order.
#[derive(Debug)]
pub struct Events {
    pub events: Vec<Event>,
}

/// A named auxiliary signal sharing the recording's time axis.
#[derive(Debug)]
pub struct AuxiliaryData {
    pub name: String,
    pub data: Vec<u64>,
}

/// Auxiliary signals. The observed containers carry none, so decoding
/// always leaves this empty; the entity stays defined and wired.
#[derive(Debug)]
pub struct BiosignalData {
    pub time: Vec<u64>,
    pub auxilaries: Vec<AuxiliaryData>,
}

/// The fully decoded recording. Assembled in one decode call and never
/// mutated afterward; a failed decode never yields a partial value.
#[derive(Debug)]
pub struct SNIRF {
    pub fd: FileDescriptor,
    pub metadata: Metadata,
    pub wavelengths: Wavelengths,
    pub channels: ChannelData,
    pub probe: Probe,
    pub events: Events,
    pub biosignals: BiosignalData,
}

impl SNIRF {
    /// The recording-wide shape invariant: every channel's two series have
    /// the time axis's length.
    pub open spec fn wf(&self) -> bool {
        self.channels.wf()
    }
}

} // verus!

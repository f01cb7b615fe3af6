//! Lightweight summary of a loaded recording, for a presentation layer.

use crate::domain::SNIRF;
use vstd::prelude::*;

verus! {

/// One event's name and marker count.
#[derive(Debug)]
pub struct EventSummary {
    pub name: String,
    pub marker_count: usize,
}

/// Counts and identity of a loaded recording. The duration is the last
/// timestamp's bit pattern (the bits of 0.0 when the axis is empty); the
/// sampling rate is a floating-point quotient of the first two
/// timestamps and is left to the presentation layer, which holds the
/// time axis anyway.
#[derive(Debug)]
pub struct SnirfSummary {
    pub filename: String,
    pub channels: usize,
    pub sources: usize,
    pub detectors: usize,
    pub timepoints: usize,
    pub duration: u64,
    pub hbo_wavelength: usize,
    pub hbr_wavelength: usize,
    pub events: Vec<EventSummary>,
    pub aux_count: usize,
}

impl SnirfSummary {
    /// Summarizes a recording: every count, the wavelength labels, and
    /// one entry per event.
    pub fn from_snirf(snirf: &SNIRF) -> (r: SnirfSummary)
        ensures
            r.filename@ == snirf.fd.name@,
            r.channels == snirf.channels.channels@.len(),
            r.sources == snirf.probe.sources@.len(),
            r.detectors == snirf.probe.detectors@.len(),
            r.timepoints == snirf.channels.time@.len(),
            r.duration == if snirf.channels.time@.len() == 0 {
                0u64
            } else {
                snirf.channels.time@.last()
            },
            r.hbo_wavelength == snirf.wavelengths.hbo_wl,
            r.hbr_wavelength == snirf.wavelengths.hbr_wl,
            r.events@.len() == snirf.events.events@.len(),
            forall|i: int|
                0 <= i < r.events@.len() ==> {
                    &&& (#[trigger] r.events@[i]).name@ == snirf.events.events@[i].name@
                    &&& r.events@[i].marker_count == snirf.events.events@[i].markers@.len()
                },
            r.aux_count == snirf.biosignals.auxilaries@.len(),
    {
        let time_len = snirf.channels.time.len();
        let duration = if time_len == 0 {
            0u64
        } else {
            snirf.channels.time[time_len - 1]
        };
        let mut events: Vec<EventSummary> = Vec::new();
        for i in 0..snirf.events.events.len()
            invariant
                events@.len() == i,
                forall|k: int|
                    0 <= k < i ==> {
                        &&& (#[trigger] events@[k]).name@ == snirf.events.events@[k].name@
                        &&& events@[k].marker_count == snirf.events.events@[k].markers@.len()
                    },
        {
            let name = snirf.events.events[i].name.clone();
            let marker_count = snirf.events.events[i].markers.len();
            events.push(EventSummary { name, marker_count });
        }
        SnirfSummary {
            filename: snirf.fd.name.clone(),
            channels: snirf.channels.channels.len(),
            sources: snirf.probe.sources.len(),
            detectors: snirf.probe.detectors.len(),
            timepoints: time_len,
            duration,
            hbo_wavelength: snirf.wavelengths.hbo_wl,
            hbr_wavelength: snirf.wavelengths.hbr_wl,
            events,
            aux_count: snirf.biosignals.auxilaries.len(),
        }
    }
}

} // verus!

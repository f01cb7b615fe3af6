//! Decoder for SNIRF-style neuro-optical time-series recordings.
//!
//! The container-access layer (an HDF5 reader) snapshots one file's groups
//! and datasets into a [`raw::RawContainer`] of plain values; the decoder
//! here is a pure, verified transform from that snapshot to a fully
//! populated [`domain::SNIRF`] recording: channels paired by physical
//! wavelength, probe geometry, sorted event markers and free-form metadata.
//!
//! Numeric samples are carried as raw IEEE 754 bit patterns (`u64`): the
//! decoder only moves, pairs and orders samples, it never computes with
//! them, so the bit pattern is a faithful carrier.

pub mod biosignals;
pub mod channels;
pub mod decode;
pub mod domain;
pub mod error;
pub mod events;
pub mod metadata;
pub mod numfmt;
pub mod order;
pub mod probe;
pub mod raw;
pub mod seqext;
pub mod summary;
pub mod timeseries;
pub mod wavelengths;

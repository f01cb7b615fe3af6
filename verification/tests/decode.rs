use nirwizard::decode::parse_snirf;
use nirwizard::domain::FileDescriptor;
use nirwizard::error::DecodeError;
use nirwizard::raw::{Measurement, MemberValue, MetaMember, RawContainer, RawMatrix, RawStim};
use nirwizard::summary::SnirfSummary;

fn matrix(rows: usize, cols: usize, values: &[f64]) -> RawMatrix {
    assert_eq!(values.len(), rows * cols);
    RawMatrix { rows, cols, data: values.iter().map(|v| v.to_bits()).collect() }
}

fn bits(values: &[f64]) -> Vec<u64> {
    values.iter().map(|v| v.to_bits()).collect()
}

/// A complete, valid synthetic container: 4 timepoints, 2 channels
/// (4 raw columns), selectors [1, 2], one source, two detectors, one
/// stimulus group with unsorted onsets, two metadata members.
fn container() -> RawContainer {
    let mut values = Vec::new();
    for t in 0..4 {
        for c in 0..4 {
            values.push((10 * t + c) as f64);
        }
    }
    RawContainer {
        fd: FileDescriptor {
            path: String::from("/data/run1.snirf"),
            name: String::from("run1.snirf"),
        },
        time: Some(bits(&[0.0, 0.1, 0.2, 0.3])),
        data: Some(matrix(4, 4, &values)),
        wavelengths: Some(vec![780, 850]),
        source_pos_2d: Some(matrix(1, 2, &[0.0, 0.0])),
        source_pos_3d: Some(matrix(1, 3, &[0.0, 0.0, 0.0])),
        detector_pos_2d: Some(matrix(2, 2, &[1.0, 0.0, 2.0, 0.0])),
        detector_pos_3d: Some(matrix(2, 3, &[1.0, 0.0, 0.0, 2.0, 0.0, 0.0])),
        measurements: vec![
            Measurement { source_index: 1, detector_index: 1, wavelength_index: 1 },
            Measurement { source_index: 1, detector_index: 2, wavelength_index: 2 },
        ],
        stims: vec![
            RawStim {
                name: String::from("tapping"),
                data: matrix(3, 3, &[5.0, 0.5, 1.0, 1.0, 0.5, 1.0, 3.0, 0.5, 1.0]),
            },
        ],
        metadata: Some(vec![
            MetaMember {
                name: String::from("SubjectID"),
                value: MemberValue::Text(String::from("S01")),
            },
            MetaMember { name: String::from("Nested"), value: MemberValue::NotADataset },
        ]),
    }
}

#[test]
fn valid_container_decodes_fully() {
    let s = parse_snirf(container()).unwrap();
    assert_eq!(s.fd.name, "run1.snirf");
    assert_eq!(s.metadata.tags.len(), 1);
    assert_eq!(s.wavelengths.hbo_wl, 850);
    assert_eq!(s.wavelengths.hbr_wl, 780);
    assert_eq!(s.probe.sources.len(), 1);
    assert_eq!(s.probe.detectors.len(), 2);
    assert_eq!(s.channels.channels.len(), 2);
    assert_eq!(s.events.events.len(), 1);
    assert!(s.biosignals.auxilaries.is_empty());
    // the channel series match the transpose of the known input matrix
    assert_eq!(s.channels.channels[0].hbo, bits(&[0.0, 10.0, 20.0, 30.0]));
    assert_eq!(s.channels.channels[1].hbo, bits(&[3.0, 13.0, 23.0, 33.0]));
    // the stim markers come out sorted by onset
    let onsets: Vec<f64> =
        s.events.events[0].markers.iter().map(|m| f64::from_bits(m.onset)).collect();
    assert_eq!(onsets, vec![1.0, 3.0, 5.0]);
}

#[test]
fn every_series_length_equals_the_time_axis_length() {
    let s = parse_snirf(container()).unwrap();
    let n = s.channels.time.len();
    assert_eq!(n, 4);
    for ch in &s.channels.channels {
        assert_eq!(ch.hbo.len(), n);
        assert_eq!(ch.hbr.len(), n);
    }
}

#[test]
fn missing_data_block_is_structural_error() {
    let mut raw = container();
    raw.data = None;
    assert!(matches!(parse_snirf(raw), Err(DecodeError::StructuralError(_))));
}

#[test]
fn missing_time_vector_is_structural_error() {
    let mut raw = container();
    raw.time = None;
    assert!(matches!(parse_snirf(raw), Err(DecodeError::StructuralError(_))));
}

#[test]
fn missing_wavelengths_is_structural_error() {
    let mut raw = container();
    raw.wavelengths = None;
    assert!(matches!(parse_snirf(raw), Err(DecodeError::StructuralError(_))));
}

#[test]
fn missing_probe_matrix_is_structural_error() {
    let mut raw = container();
    raw.detector_pos_3d = None;
    assert!(matches!(parse_snirf(raw), Err(DecodeError::StructuralError(_))));
}

#[test]
fn missing_metadata_group_is_structural_error() {
    let mut raw = container();
    raw.metadata = None;
    assert!(matches!(parse_snirf(raw), Err(DecodeError::StructuralError(_))));
}

#[test]
fn absent_stim_groups_are_not_an_error() {
    let mut raw = container();
    raw.stims = vec![];
    let s = parse_snirf(raw).unwrap();
    assert!(s.events.events.is_empty());
}

#[test]
fn each_error_kind_carries_its_message() {
    assert_eq!(DecodeError::IoError(String::from("cannot open")).describe(), "cannot open");
    assert_eq!(DecodeError::StructuralError(String::from("no group")).describe(), "no group");
    assert_eq!(DecodeError::TypeError(String::from("not a string")).describe(), "not a string");
}

#[test]
fn error_description_is_not_empty() {
    let mut raw = container();
    raw.data = None;
    let e = parse_snirf(raw).unwrap_err();
    assert!(!e.describe().is_empty());
}

#[test]
fn summary_counts_match_the_recording() {
    let s = parse_snirf(container()).unwrap();
    let sum = SnirfSummary::from_snirf(&s);
    assert_eq!(sum.filename, "run1.snirf");
    assert_eq!(sum.channels, 2);
    assert_eq!(sum.sources, 1);
    assert_eq!(sum.detectors, 2);
    assert_eq!(sum.timepoints, 4);
    assert_eq!(f64::from_bits(sum.duration), 0.3);
    assert_eq!(sum.hbo_wavelength, 850);
    assert_eq!(sum.hbr_wavelength, 780);
    assert_eq!(sum.events.len(), 1);
    assert_eq!(sum.events[0].name, "tapping");
    assert_eq!(sum.events[0].marker_count, 3);
    assert_eq!(sum.aux_count, 0);
}

#[test]
fn summary_duration_of_empty_axis_is_zero() {
    let mut raw = container();
    raw.time = Some(vec![]);
    raw.data = Some(matrix(0, 4, &[]));
    let s = parse_snirf(raw).unwrap();
    let sum = SnirfSummary::from_snirf(&s);
    assert_eq!(sum.timepoints, 0);
    assert_eq!(f64::from_bits(sum.duration), 0.0);
}

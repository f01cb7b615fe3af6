use nirwizard::channels::{channel_name, parse_measurement_list};
use nirwizard::error::DecodeError;
use nirwizard::numfmt::decimal_string;
use nirwizard::raw::{Measurement, RawMatrix};
use nirwizard::timeseries::transpose;

fn matrix(rows: usize, cols: usize, values: &[f64]) -> RawMatrix {
    assert_eq!(values.len(), rows * cols);
    RawMatrix { rows, cols, data: values.iter().map(|v| v.to_bits()).collect() }
}

fn bits(values: &[f64]) -> Vec<u64> {
    values.iter().map(|v| v.to_bits()).collect()
}

fn times(n: usize) -> Vec<u64> {
    (0..n).map(|t| (t as f64 * 0.1).to_bits()).collect()
}

// the known 4x4 block: entry at row t, column c is 10*t + c
fn block() -> RawMatrix {
    let mut values = Vec::new();
    for t in 0..4 {
        for c in 0..4 {
            values.push((10 * t + c) as f64);
        }
    }
    matrix(4, 4, &values)
}

fn measurement(s: usize, d: usize, wl: usize) -> Measurement {
    Measurement { source_index: s, detector_index: d, wavelength_index: wl }
}

#[test]
fn transpose_turns_rows_into_column_series() {
    let m = matrix(2, 3, &[1.0, 2.0, 3.0, 4.0, 5.0, 6.0]);
    let cols = transpose(&m);
    assert_eq!(cols.len(), 3);
    assert_eq!(cols[0], bits(&[1.0, 4.0]));
    assert_eq!(cols[1], bits(&[2.0, 5.0]));
    assert_eq!(cols[2], bits(&[3.0, 6.0]));
}

#[test]
fn round_trip_shape_and_values() {
    // 4 timepoints, 4 raw columns, selectors [1, 2]: 2 channels of 4
    // samples each, matching the transpose of the known block
    let ms = vec![measurement(1, 1, 1), measurement(1, 2, 2)];
    let cd = parse_measurement_list(times(4), &block(), &ms).unwrap();
    assert_eq!(cd.channels.len(), 2);
    assert_eq!(cd.time.len(), 4);
    for ch in &cd.channels {
        assert_eq!(ch.hbo.len(), 4);
        assert_eq!(ch.hbr.len(), 4);
    }
    // selector 1: first-half column carries the oxy series
    assert_eq!(cd.channels[0].hbo, bits(&[0.0, 10.0, 20.0, 30.0]));
    assert_eq!(cd.channels[0].hbr, bits(&[2.0, 12.0, 22.0, 32.0]));
    // selector 2: the assignment is reversed
    assert_eq!(cd.channels[1].hbo, bits(&[3.0, 13.0, 23.0, 33.0]));
    assert_eq!(cd.channels[1].hbr, bits(&[1.0, 11.0, 21.0, 31.0]));
}

#[test]
fn channel_identity_comes_from_the_measurement_record() {
    let ms = vec![measurement(1, 1, 1), measurement(3, 12, 2)];
    let cd = parse_measurement_list(times(4), &block(), &ms).unwrap();
    assert_eq!(cd.channels[0].id, 0);
    assert_eq!(cd.channels[0].name, "S1-D1");
    assert_eq!(cd.channels[1].id, 1);
    assert_eq!(cd.channels[1].source_id, 3);
    assert_eq!(cd.channels[1].detector_id, 12);
    assert_eq!(cd.channels[1].name, "S3-D12");
}

#[test]
fn odd_column_count_is_structural_error() {
    let m = matrix(2, 3, &[0.0; 6]);
    let ms = vec![measurement(1, 1, 1)];
    let r = parse_measurement_list(times(2), &m, &ms);
    assert!(matches!(r, Err(DecodeError::StructuralError(_))));
}

#[test]
fn zero_columns_is_structural_error() {
    let m = matrix(0, 0, &[]);
    let r = parse_measurement_list(times(0), &m, &vec![]);
    assert!(matches!(r, Err(DecodeError::StructuralError(_))));
}

#[test]
fn wrong_measurement_count_is_structural_error() {
    let r = parse_measurement_list(times(4), &block(), &vec![measurement(1, 1, 1)]);
    assert!(matches!(r, Err(DecodeError::StructuralError(_))));
}

#[test]
fn time_axis_mismatch_is_structural_error() {
    let ms = vec![measurement(1, 1, 1), measurement(1, 2, 2)];
    let r = parse_measurement_list(times(3), &block(), &ms);
    assert!(matches!(r, Err(DecodeError::StructuralError(_))));
}

#[test]
fn decimal_rendering() {
    assert_eq!(decimal_string(0), "0");
    assert_eq!(decimal_string(7), "7");
    assert_eq!(decimal_string(10), "10");
    assert_eq!(decimal_string(105), "105");
    assert_eq!(channel_name(12, 340), "S12-D340");
}

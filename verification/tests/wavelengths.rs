use nirwizard::domain::Wavelengths;
use nirwizard::error::DecodeError;
use nirwizard::wavelengths::{parse_wavelenghts, sort_desc_exec};

fn resolve(ws: Vec<usize>) -> Result<Wavelengths, DecodeError> {
    parse_wavelenghts(&ws)
}

#[test]
fn resolves_oxy_to_larger_wavelength_ascending_input() {
    let w = resolve(vec![780, 850]).unwrap();
    assert_eq!(w.hbo_wl, 850);
    assert_eq!(w.hbr_wl, 780);
}

#[test]
fn resolves_oxy_to_larger_wavelength_descending_input() {
    let w = resolve(vec![850, 780]).unwrap();
    assert_eq!(w.hbo_wl, 850);
    assert_eq!(w.hbr_wl, 780);
}

#[test]
fn single_wavelength_is_structural_error() {
    let r = resolve(vec![780]);
    assert!(matches!(r, Err(DecodeError::StructuralError(_))));
}

#[test]
fn empty_wavelength_list_is_structural_error() {
    let r = resolve(vec![]);
    assert!(matches!(r, Err(DecodeError::StructuralError(_))));
}

#[test]
fn equal_wavelengths_are_fewer_than_two_distinct() {
    let r = resolve(vec![850, 850]);
    assert!(matches!(r, Err(DecodeError::StructuralError(_))));
}

#[test]
fn duplicate_of_the_larger_value_keeps_first_two_sorted() {
    // three values, two distinct: the sorted list starts 850, 850
    let w = resolve(vec![780, 850, 850]).unwrap();
    assert_eq!(w.hbo_wl, 850);
    assert_eq!(w.hbr_wl, 850);
}

#[test]
fn sort_desc_orders_non_increasing() {
    let sorted = sort_desc_exec(&vec![3, 9, 1, 9, 4]);
    assert_eq!(sorted, vec![9, 9, 4, 3, 1]);
}

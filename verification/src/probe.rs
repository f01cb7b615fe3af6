//! The probe assembler: builds the named, positioned optode lists for
//! sources and detectors from the four position matrices.

use crate::domain::{Optode, Probe, Vec2, Vec3};
use crate::error::DecodeError;
use crate::numfmt::{push_decimal, spec_decimal};
use crate::raw::RawMatrix;
use vstd::prelude::*;

verus! {

/// Generated source name, `S{n}`.
pub open spec fn spec_source_name(n: int) -> Seq<char> {
    seq!['S'] + spec_decimal(n)
}

/// Generated detector name, `D{n}`.
pub open spec fn spec_detector_name(n: int) -> Seq<char> {
    seq!['D'] + spec_decimal(n)
}

/// The optode row `i` (0-based) of a paired 2D/3D matrix class yields:
/// index `i`, the class name numbered from 1, and the row's coordinates
/// copied unconverted.
pub open spec fn optode_ok(o: Optode, i: int, source: bool, m2: RawMatrix, m3: RawMatrix) -> bool {
    &&& o.id == i
    &&& o.name@ == if source {
        spec_source_name(i + 1)
    } else {
        spec_detector_name(i + 1)
    }
    &&& o.pos_2d == (Vec2 { x: m2.entry(i, 0), y: m2.entry(i, 1) })
    &&& o.pos_3d == (Vec3 { x: m3.entry(i, 0), y: m3.entry(i, 1), z: m3.entry(i, 2) })
}

/// The generated name of one optode: `S` or `D`, then the 1-based row
/// number in decimal.
fn optode_name(source: bool, n: usize) -> (r: String)
    ensures
        r@ == if source {
            spec_source_name(n as int)
        } else {
            spec_detector_name(n as int)
        },
{
    let mut s = if source {
        String::from_str("S")
    } else {
        String::from_str("D")
    };
    proof {
        reveal_strlit("S");
        reveal_strlit("D");
        if source {
            assert(s@ =~= seq!['S']);
        } else {
            assert(s@ =~= seq!['D']);
        }
    }
    push_decimal(&mut s, n);
    s
}

/// One optode per row of the paired position matrices, in row order.
fn build_optodes(m2: &RawMatrix, m3: &RawMatrix, source: bool) -> (r: Vec<Optode>)
    requires
        m2.wf(),
        m3.wf(),
        m2.rows == m3.rows,
        m2.cols >= 2,
        m3.cols >= 3,
    ensures
        r@.len() == m2.rows,
        forall|i: int| 0 <= i < m2.rows ==> optode_ok(#[trigger] r@[i], i, source, *m2, *m3),
{
    let mut r: Vec<Optode> = Vec::new();
    for i in 0..m2.rows
        invariant
            m2.wf(),
            m3.wf(),
            m2.rows == m3.rows,
            m2.cols >= 2,
            m3.cols >= 3,
            r@.len() == i,
            forall|k: int| 0 <= k < i ==> optode_ok(#[trigger] r@[k], k, source, *m2, *m3),
    {
        let name = optode_name(source, i + 1);
        let pos_2d = Vec2 { x: m2.get(i, 0), y: m2.get(i, 1) };
        let pos_3d = Vec3 { x: m3.get(i, 0), y: m3.get(i, 1), z: m3.get(i, 2) };
        r.push(Optode { name, id: i, pos_3d, pos_2d });
    }
    r
}

/// Builds the probe geometry from the four position matrices: one optode
/// per row, sources named `S1`, `S2`, ... and detectors `D1`, `D2`, ...,
/// coordinates copied directly with no unit conversion, output order
/// equal to row order.
///
/// Fails with a structural error when the 2D and 3D row counts of a
/// class disagree, or when a matrix is too narrow for its coordinate
/// dimension (2D needs two columns, 3D three).
pub fn parse_probe(
    s2d: &RawMatrix,
    s3d: &RawMatrix,
    d2d: &RawMatrix,
    d3d: &RawMatrix,
) -> (r: Result<Probe, DecodeError>)
    requires
        s2d.wf(),
        s3d.wf(),
        d2d.wf(),
        d3d.wf(),
    ensures
        r is Ok <==> {
            &&& s2d.rows == s3d.rows
            &&& d2d.rows == d3d.rows
            &&& s2d.cols >= 2
            &&& s3d.cols >= 3
            &&& d2d.cols >= 2
            &&& d3d.cols >= 3
        },
        r matches Ok(p) ==> {
            &&& p.sources@.len() == s2d.rows
            &&& forall|i: int|
                0 <= i < s2d.rows ==> optode_ok(#[trigger] p.sources@[i], i, true, *s2d, *s3d)
            &&& p.detectors@.len() == d2d.rows
            &&& forall|i: int|
                0 <= i < d2d.rows ==> optode_ok(#[trigger] p.detectors@[i], i, false, *d2d, *d3d)
        },
        r matches Err(e) ==> e is StructuralError,
{
    if s2d.rows != s3d.rows {
        return Err(DecodeError::StructuralError(String::from_str(
            "source 2D and 3D position row counts disagree",
        )));
    }
    if d2d.rows != d3d.rows {
        return Err(DecodeError::StructuralError(String::from_str(
            "detector 2D and 3D position row counts disagree",
        )));
    }
    if s2d.cols < 2 || s3d.cols < 3 || d2d.cols < 2 || d3d.cols < 3 {
        return Err(DecodeError::StructuralError(String::from_str(
            "a position matrix is too narrow for its coordinate dimension",
        )));
    }
    let sources = build_optodes(s2d, s3d, true);
    let detectors = build_optodes(d2d, d3d, false);
    Ok(Probe { sources, detectors })
}

} // verus!

//! The raw container snapshot: everything the decoder reads from the
//! hierarchical file, as plain values. The container-access layer fills
//! one of these per file; the decoder is a pure transform on it.

use crate::domain::FileDescriptor;
use vstd::prelude::*;

verus! {

/// A numeric matrix as stored: row-major, `rows * cols` `f64` bit patterns.
#[derive(Debug)]
pub struct RawMatrix {
    pub rows: usize,
    pub cols: usize,
    pub data: Vec<u64>,
}

impl RawMatrix {
    /// The flat buffer holds exactly `rows * cols` entries, and that
    /// count fits the machine's `usize`.
    pub open spec fn wf(&self) -> bool {
        &&& self.data@.len() == self.rows * self.cols
        &&& self.rows * self.cols <= usize::MAX
    }

    /// The entry at row `r`, column `c` of the row-major buffer.
    pub open spec fn entry(&self, r: int, c: int) -> u64 {
        self.data@[r * self.cols + c]
    }

    /// Column `c` read top to bottom: one contiguous series per raw column.
    pub open spec fn spec_column(&self, c: int) -> Seq<u64> {
        Seq::new(self.rows as nat, |t: int| self.entry(t, c))
    }

    /// Reads the entry at row `r`, column `c`.
    pub fn get(&self, r: usize, c: usize) -> (v: u64)
        requires
            self.wf(),
            r < self.rows,
            c < self.cols,
        ensures
            v == self.entry(r as int, c as int),
    {
        proof {
            lemma_row_major_index(self.rows as int, self.cols as int, r as int, c as int);
        }
        self.data[r * self.cols + c]
    }
}

/// Index arithmetic of the row-major layout: every in-range (row, column)
/// pair addresses a buffer cell.
pub proof fn lemma_row_major_index(rows: int, cols: int, t: int, c: int)
    by (nonlinear_arith)
    requires
        0 <= t < rows,
        0 <= c < cols,
    ensures
        0 <= t * cols + c < rows * cols,
{
}

/// One measurement record: per source-detector pair, the recorded 1-based
/// source and detector indices and the wavelength selector (1 or 2) that
/// says which wavelength the pair's first-half column carries.
#[derive(Clone, Copy, PartialEq, Eq, Structural, Debug)]
pub struct Measurement {
    pub source_index: usize,
    pub detector_index: usize,
    pub wavelength_index: usize,
}

/// What the accessor found when it tried to read one member of the
/// metadata group as a scalar string dataset.
#[derive(Debug)]
pub enum MemberValue {
    /// A scalar string dataset; its value.
    Text(String),
    /// A leaf dataset that is not string-typed.
    NonText,
    /// Not a leaf dataset at all (for instance a sub-group).
    NotADataset,
}

/// One member of the metadata group: its name and what reading it gave.
#[derive(Debug)]
pub struct MetaMember {
    pub name: String,
    pub value: MemberValue,
}

/// One discovered stimulus group: its recorded name and its marker matrix
/// (each row with at least three columns is onset, duration, value).
#[derive(Debug)]
pub struct RawStim {
    pub name: String,
    pub data: RawMatrix,
}

/// Everything one decode reads from the container. A mandatory group or
/// dataset that is absent from the file is `None` here; the decoder turns
/// that into a structural error. The stimulus groups `stim1`, `stim2`, ...
/// are probed in order until the first missing index, so their mere
/// absence leaves an empty list, never an error.
#[derive(Debug)]
pub struct RawContainer {
    /// Source path and display name of the container.
    pub fd: FileDescriptor,
    /// The time vector (`f64` bit patterns), if present.
    pub time: Option<Vec<u64>>,
    /// The raw interleaved data block `[n_timepoints, n_raw_columns]`.
    pub data: Option<RawMatrix>,
    /// The recorded wavelength list, order as stored.
    pub wavelengths: Option<Vec<usize>>,
    /// 2D source positions, one row per source.
    pub source_pos_2d: Option<RawMatrix>,
    /// 3D source positions, one row per source.
    pub source_pos_3d: Option<RawMatrix>,
    /// 2D detector positions, one row per detector.
    pub detector_pos_2d: Option<RawMatrix>,
    /// 3D detector positions, one row per detector.
    pub detector_pos_3d: Option<RawMatrix>,
    /// The measurement records, in `measurementList1`, `measurementList2`,
    /// ... order, probed until the first missing index.
    pub measurements: Vec<Measurement>,
    /// The stimulus groups, in `stim1`, `stim2`, ... order.
    pub stims: Vec<RawStim>,
    /// The members of the metadata group, in member-listing order; `None`
    /// if the group itself is absent.
    pub metadata: Option<Vec<MetaMember>>,
}

impl RawContainer {
    /// Every matrix the snapshot carries has a buffer of its stated shape.
    pub open spec fn wf(&self) -> bool {
        &&& (self.data matches Some(m) ==> m.wf())
        &&& (self.source_pos_2d matches Some(m) ==> m.wf())
        &&& (self.source_pos_3d matches Some(m) ==> m.wf())
        &&& (self.detector_pos_2d matches Some(m) ==> m.wf())
        &&& (self.detector_pos_3d matches Some(m) ==> m.wf())
        &&& forall|i: int|
            0 <= i < self.stims@.len() ==> (#[trigger] self.stims@[i]).data.wf()
    }
}

} // verus!

//! Per-axis selections and their resolution into hyperslabs.
//!
//! A selection names, axis by axis, which positions of a dataset are meant.
//! Resolving it against the dataset's shape either yields one hyperslab
//! triple (start, stride, count) per axis, or says which axis is at fault.
use vstd::prelude::*;

verus! {

/// What is selected along one axis of a dataset.
#[derive(Clone, Copy, Debug, PartialEq, Eq)]
pub enum AxisSelection {
    /// A single position.
    Index(i64),
    /// The positions `start, start + step, ..` below `end`; with no `end`
    /// the range runs to the end of the axis.
    Slice { start: i64, end: Option<i64>, step: i64 },
}

/// A regular run of positions along one axis: `count` positions, the first
/// at `start`, each `stride` after the one before.
#[derive(Clone, Copy, Debug, PartialEq, Eq)]
pub struct AxisSlab {
    pub start: u64,
    pub stride: u64,
    pub count: u64,
}

/// Why a selection does not fit a dataset.
#[derive(Clone, Copy, Debug, PartialEq, Eq)]
pub enum SelectionError {
    /// The selection has `found` axes, the dataset has `expected`.
    RankMismatch { expected: usize, found: usize },
    /// The index or range given for `axis` does not lie within its extent.
    OutOfBounds { axis: usize },
    /// The step given for `axis` is zero or negative.
    NonPositiveStride { axis: usize },
}

impl SelectionError {
    /// The axis that an error speaks of; a rank mismatch speaks of none.
    pub open spec fn axis(self) -> int {
        match self {
            SelectionError::RankMismatch { .. } => -1,
            SelectionError::OutOfBounds { axis } => axis as int,
            SelectionError::NonPositiveStride { axis } => axis as int,
        }
    }
}

impl AxisSelection {
    /// Where a range with the given `end` stops on an axis of `extent`.
    pub open spec fn end_on(end: Option<i64>, extent: u64) -> int {
        match end {
            Some(e) => e as int,
            None => extent as int,
        }
    }

    /// The first selected position.
    pub open spec fn first(self) -> int {
        match self {
            AxisSelection::Index(i) => i as int,
            AxisSelection::Slice { start, .. } => start as int,
        }
    }

    /// The position at which the selection stops (exclusive).
    pub open spec fn stop(self, extent: u64) -> int {
        match self {
            AxisSelection::Index(i) => i + 1,
            AxisSelection::Slice { end, .. } => Self::end_on(end, extent),
        }
    }

    /// The distance between two selected positions.
    pub open spec fn step(self) -> int {
        match self {
            AxisSelection::Index(_) => 1,
            AxisSelection::Slice { step, .. } => step as int,
        }
    }

    /// The selection lies within an axis of `extent`: it starts at or after
    /// position 0, does not stop before it starts, and stops at or before
    /// `extent`. A single index must name an existing position.
    pub open spec fn in_bounds(self, extent: u64) -> bool {
        0 <= self.first() <= self.stop(extent) <= extent
    }

    /// What is wrong with this selection on an axis of `extent`, if anything.
    /// A bad step is told before a bad bound.
    pub open spec fn fault(self, extent: u64, axis: usize) -> Option<SelectionError> {
        if self.step() < 1 {
            Some(SelectionError::NonPositiveStride { axis })
        } else if !self.in_bounds(extent) {
            Some(SelectionError::OutOfBounds { axis })
        } else {
            None
        }
    }

    /// How many positions are selected: the multiples of the step that fit
    /// between the first position and the stop.
    pub open spec fn count(self, extent: u64) -> int {
        let span = self.stop(extent) - self.first();
        if span <= 0 {
            0
        } else {
            (span - 1) / self.step() + 1
        }
    }

    /// The hyperslab triple of a selection that has no fault.
    pub open spec fn slab(self, extent: u64) -> AxisSlab {
        AxisSlab {
            start: self.first() as u64,
            stride: self.step() as u64,
            count: self.count(extent) as u64,
        }
    }

    /// Resolves the selection against one axis of length `extent`.
    ///
    /// `axis` is the axis's number and is only used to label an error.
    pub fn resolve(&self, extent: u64, axis: usize) -> (r: Result<AxisSlab, SelectionError>)
        ensures
            r == (match self.fault(extent, axis) {
                Some(e) => Err::<AxisSlab, SelectionError>(e),
                None => Ok(self.slab(extent)),
            }),
    {
        match *self {
            AxisSelection::Index(i) => {
                if i < 0 || i as u64 >= extent {
                    Err(SelectionError::OutOfBounds { axis })
                } else {
                    Ok(AxisSlab { start: i as u64, stride: 1, count: 1 })
                }
            },
            AxisSelection::Slice { start, end, step } => {
                if step < 1 {
                    return Err(SelectionError::NonPositiveStride { axis });
                }
                if start < 0 {
                    return Err(SelectionError::OutOfBounds { axis });
                }
                let stop: u64 = match end {
                    Some(e) => {
                        if e < 0 {
                            return Err(SelectionError::OutOfBounds { axis });
                        }
                        e as u64
                    },
                    None => extent,
                };
                let first: u64 = start as u64;
                if first > stop || stop > extent {
                    return Err(SelectionError::OutOfBounds { axis });
                }
                let span: u64 = stop - first;
                let stride: u64 = step as u64;
                let count: u64 = if span == 0 {
                    0
                } else {
                    proof {
                        lemma_quotient_bounded((span - 1) as int, stride as int);
                    }
                    (span - 1) / stride + 1
                };
                Ok(AxisSlab { start: first, stride, count })
            },
        }
    }
}

/// Dividing a non-negative number by a positive one gives a non-negative
/// number that is no larger.
proof fn lemma_quotient_bounded(x: int, d: int)
    requires
        0 <= x,
        1 <= d,
    ensures
        0 <= x / d <= x,
{
    vstd::arithmetic::div_mod::lemma_div_pos_is_pos(x, d);
    vstd::arithmetic::div_mod::lemma_div_is_ordered_by_denominator(x, 1, d);
    vstd::arithmetic::div_mod::lemma_div_basics(x);
}

/// Every axis of `selection` fits the axis of `shape` at the same place, and
/// there are as many of the one as of the other.
pub open spec fn selection_fits(shape: Seq<u64>, selection: Seq<AxisSelection>) -> bool {
    &&& shape.len() == selection.len()
    &&& forall|i: int|
        0 <= i < selection.len() ==> (#[trigger] selection[i]).fault(shape[i], i as usize) is None
}

/// Axis `a` is the first one at which `selection` does not fit `shape`.
pub open spec fn first_fault_at(shape: Seq<u64>, selection: Seq<AxisSelection>, a: int) -> bool {
    &&& 0 <= a < selection.len()
    &&& selection[a].fault(shape[a], a as usize) is Some
    &&& forall|i: int| 0 <= i < a ==> (#[trigger] selection[i]).fault(shape[i], i as usize) is None
}

/// The hyperslab triples of a selection that fits, one per axis.
pub open spec fn slabs_of(shape: Seq<u64>, selection: Seq<AxisSelection>) -> Seq<AxisSlab> {
    Seq::new(selection.len(), |i: int| selection[i].slab(shape[i]))
}

/// What resolving `selection` against `shape` gives: the triples where it
/// fits; a rank mismatch where the lengths differ; else the fault of the
/// first axis that has one.
pub open spec fn resolution_is(
    shape: Seq<u64>,
    selection: Seq<AxisSelection>,
    r: Result<Seq<AxisSlab>, SelectionError>,
) -> bool {
    match r {
        Ok(slabs) => selection_fits(shape, selection) && slabs == slabs_of(shape, selection),
        Err(e) => if shape.len() != selection.len() {
            e == (SelectionError::RankMismatch {
                expected: shape.len() as usize,
                found: selection.len() as usize,
            })
        } else {
            &&& first_fault_at(shape, selection, e.axis())
            &&& Some(e) == selection[e.axis()].fault(shape[e.axis()], e.axis() as usize)
        },
    }
}

/// Resolves a selection against the shape of a dataset.
///
/// Succeeds exactly when the selection has one entry per axis and each entry
/// fits its axis; the result then holds one hyperslab triple per axis.
/// Otherwise the error names the rank mismatch or the first axis at fault.
pub fn resolve_selection(shape: &Vec<u64>, selection: &Vec<AxisSelection>) -> (r: Result<
    Vec<AxisSlab>,
    SelectionError,
>)
    ensures
        resolution_is(
            shape@,
            selection@,
            match r {
                Ok(v) => Ok(v@),
                Err(e) => Err(e),
            },
        ),
        r is Ok <==> selection_fits(shape@, selection@),
{
    if shape.len() != selection.len() {
        return Err(SelectionError::RankMismatch { expected: shape.len(), found: selection.len() });
    }
    let mut slabs: Vec<AxisSlab> = Vec::new();
    let mut i: usize = 0;
    while i < selection.len()
        invariant
            shape@.len() == selection@.len(),
            0 <= i <= selection@.len(),
            slabs@.len() == i,
            forall|j: int|
                0 <= j < i ==> (#[trigger] selection@[j]).fault(shape@[j], j as usize) is None,
            forall|j: int| 0 <= j < i ==> slabs@[j] == selection@[j].slab(shape@[j]),
        decreases selection@.len() - i,
    {
        match selection[i].resolve(shape[i], i) {
            Ok(slab) => {
                slabs.push(slab);
            },
            Err(e) => {
                assert(first_fault_at(shape@, selection@, i as int));
                return Err(e);
            },
        }
        i += 1;
    }
    assert(slabs@ =~= slabs_of(shape@, selection@));
    Ok(slabs)
}

/// A selection that has a fault does not fit.
pub proof fn lemma_fault_excludes_fit(
    shape: Seq<u64>,
    selection: Seq<AxisSelection>,
    e: SelectionError,
)
    requires
        resolution_is(shape, selection, Err(e)),
    ensures
        !selection_fits(shape, selection),
{
    if shape.len() == selection.len() {
        let a = e.axis();
        assert(selection[a].fault(shape[a], a as usize) is Some);
    }
}

/// Resolving is a function: a shape and a selection have one resolution.
pub proof fn lemma_resolution_is_unique(
    shape: Seq<u64>,
    selection: Seq<AxisSelection>,
    a: Result<Seq<AxisSlab>, SelectionError>,
    b: Result<Seq<AxisSlab>, SelectionError>,
)
    requires
        resolution_is(shape, selection, a),
        resolution_is(shape, selection, b),
    ensures
        a == b,
{
    match (a, b) {
        (Err(e), Err(f)) => {
            if shape.len() == selection.len() {
                let i = e.axis();
                let j = f.axis();
                if i < j {
                    assert(selection[i].fault(shape[i], i as usize) is None);
                }
                if j < i {
                    assert(selection[j].fault(shape[j], j as usize) is None);
                }
            }
        },
        (Err(e), Ok(_)) => {
            lemma_fault_excludes_fit(shape, selection, e);
        },
        (Ok(_), Err(f)) => {
            lemma_fault_excludes_fit(shape, selection, f);
        },
        (Ok(_), Ok(_)) => {},
    }
}

/// Position number `k` of a selection on an axis.
pub open spec fn position(sel: AxisSelection, k: int) -> int {
    sel.first() + k * sel.step()
}

/// The count of a selection without fault is exact: position number `k`
/// lies before the stop exactly when `k` is below the count.
pub proof fn lemma_count_is_exact(sel: AxisSelection, extent: u64, axis: usize, k: int)
    requires
        sel.fault(extent, axis) is None,
        0 <= k,
    ensures
        k < sel.count(extent) <==> position(sel, k) < sel.stop(extent),
{
    let span = sel.stop(extent) - sel.first();
    let d = sel.step();
    if span > 0 {
        let q = (span - 1) / d;
        vstd::arithmetic::div_mod::lemma_fundamental_div_mod(span - 1, d);
        vstd::arithmetic::div_mod::lemma_mod_bound(span - 1, d);
        assert(span - 1 == d * q + (span - 1) % d);
        if k <= q {
            assert(k * d <= q * d) by (nonlinear_arith)
                requires
                    k <= q,
                    d >= 1,
            ;
            assert(q * d == d * q) by (nonlinear_arith);
        } else {
            assert(k * d >= (q + 1) * d) by (nonlinear_arith)
                requires
                    k >= q + 1,
                    d >= 1,
            ;
            assert((q + 1) * d == d * q + d) by (nonlinear_arith);
        }
    } else {
        assert(k * d >= 0) by (nonlinear_arith)
            requires
                k >= 0,
                d >= 1,
        ;
    }
}

/// Every selected position of a selection without fault exists on the axis.
pub proof fn lemma_positions_within_extent(sel: AxisSelection, extent: u64, axis: usize, k: int)
    requires
        sel.fault(extent, axis) is None,
        0 <= k < sel.count(extent),
    ensures
        0 <= position(sel, k) < extent,
{
    lemma_count_is_exact(sel, extent, axis, k);
    assert(k * sel.step() >= 0) by (nonlinear_arith)
        requires
            k >= 0,
            sel.step() >= 1,
    ;
}

} // verus!

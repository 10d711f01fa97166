//! The calls into the `a5` indexing engine that the façade makes, each with
//! what the engine's source shows of its result.
use vstd::prelude::*;
use crate::envelope::{seq_outcome, text_outcome};

verus! {

/// 4 to the power n.
pub open spec fn pow4(n: nat) -> nat
    decreases n,
{
    if n == 0 {
        1
    } else {
        4 * pow4((n - 1) as nat)
    }
}

/// Number of cells at a resolution: none below 0, the 12 base cells at 0, and
/// 60 · 4^(r − 1) above, each finer level splitting a cell in four.
pub open spec fn num_cells(resolution: int) -> nat {
    if resolution < 0 {
        0
    } else if resolution == 0 {
        12
    } else {
        60 * pow4((resolution - 1) as nat)
    }
}

/// The resolution that the engine reads from the bits of a cell identifier.
pub uninterp spec fn resolution_of(index: u64) -> int;

/// The engine's outcome for the ancestor of a cell at a resolution.
pub uninterp spec fn parent_in_engine(index: u64, resolution: i32) -> Result<u64, Seq<char>>;

/// The engine's outcome for the descendants of a cell, at the given resolution
/// or, with none given, at the next finer one.
pub uninterp spec fn children_in_engine(index: u64, resolution: Option<i32>) -> Result<
    Seq<u64>,
    Seq<char>,
>;

/// True when a resolution is requested and it is finer than any the engine has.
pub open spec fn beyond_finest(resolution: Option<i32>) -> bool {
    match resolution {
        Some(c) => c > 30,
        None => false,
    }
}

/// Relies on a5::get_num_cells, which returns 0 below resolution 0, 12 at 0,
/// and 60 * 4^(resolution - 1) above; up to resolution 30 that fits in a u64.
#[verifier::external_body]
pub(crate) fn engine_num_cells(resolution: i32) -> (r: u64)
    requires
        resolution <= 30,
    ensures
        r as int == num_cells(resolution as int),
{
    a5::get_num_cells(resolution)
}

/// Relies on a5::get_resolution, which decodes the resolution marker of an
/// identifier: -1 for the world cell 0, otherwise a level in -1..=30.
#[verifier::external_body]
pub(crate) fn engine_resolution(index: u64) -> (r: i32)
    ensures
        r as int == resolution_of(index),
        -1 <= r <= 30,
        index == 0 ==> r == -1,
{
    a5::get_resolution(index)
}

/// Relies on a5::cell_to_parent with an explicit resolution: for a resolution
/// in 0..=29 it fails only on the world cell 0, and otherwise masks the
/// identifier's bits down to that level.
#[verifier::external_body]
pub(crate) fn engine_parent(index: u64, resolution: i32) -> (r: Result<u64, String>)
    requires
        0 <= resolution <= 29,
    ensures
        text_outcome(r) == parent_in_engine(index, resolution),
        r is Ok <==> index != 0,
{
    a5::cell_to_parent(index, Some(resolution))
}

/// Relies on a5::cell_to_children: it decodes the cell and enumerates its
/// descendants; a requested resolution above 30 is always refused.
#[verifier::external_body]
pub(crate) fn engine_children(index: u64, resolution: Option<i32>) -> (r: Result<Vec<u64>, String>)
    ensures
        seq_outcome(r) == children_in_engine(index, resolution),
        beyond_finest(resolution) ==> r is Err,
{
    a5::cell_to_children(index, resolution)
}

/// Relies on a5::get_res0_cells, which always succeeds with a copy of the 12
/// base cells, computed once as the resolution-0 children of the world cell 0.
#[verifier::external_body]
pub(crate) fn engine_res0_cells() -> (r: Result<Vec<u64>, String>)
    ensures
        r is Ok,
        r->Ok_0@.len() == 12,
        seq_outcome(r) == children_in_engine(0, Some(0i32)),
{
    a5::get_res0_cells()
}

} // verus!

//! The operation façade: stateless entry points over the engine that take
//! plain scalars and hand back envelopes.
use vstd::prelude::*;
use crate::engine::{
    children_in_engine, engine_children, engine_num_cells, engine_parent, engine_res0_cells,
    engine_resolution, num_cells, parent_in_engine, pow4, resolution_of,
};
use crate::envelope::{cell_vec_result_to_c, CellArray, ResultU64};

verus! {

/// The finest resolution that the façade accepts.
pub const FINEST_RESOLUTION: i32 = 29;

/// Resolutions that the façade accepts: 0 (the base cells) to 29.
pub open spec fn in_domain(resolution: int) -> bool {
    0 <= resolution <= FINEST_RESOLUTION
}

/// Diagnostic for a resolution outside the domain.
pub open spec fn domain_text() -> Seq<char> {
    "resolution is outside the supported range 0..=29"@
}

/// Diagnostic for an ancestor finer than the cell itself.
pub open spec fn not_ancestor_text() -> Seq<char> {
    "target resolution is finer than the cell's own resolution"@
}

/// Why an ancestor level is refused for a cell of the given resolution, if
/// it is: outside the domain, or finer than the cell itself.
pub open spec fn ancestor_refusal(parent_resolution: int, own_resolution: int) -> Option<
    Seq<char>,
> {
    if !in_domain(parent_resolution) {
        Some(domain_text())
    } else if parent_resolution > own_resolution {
        Some(not_ancestor_text())
    } else {
        None
    }
}

/// What the ancestor lookup yields: the refusal if there is one, and
/// otherwise the engine's answer.
pub open spec fn parent_outcome(index: u64, resolution: i32) -> Result<u64, Seq<char>> {
    match ancestor_refusal(resolution as int, resolution_of(index)) {
        Some(m) => Err(m),
        None => parent_in_engine(index, resolution),
    }
}

/// The resolution that the descendant lookup hands to the engine. A value
/// outside the domain is passed on so that the engine refuses it; a value
/// inside it is dropped and the engine picks the next finer level. This keeps
/// the boundary's established behaviour for its callers.
pub open spec fn forwarded_child_resolution(resolution: i32) -> Option<i32> {
    if in_domain(resolution as int) {
        None
    } else {
        Some(resolution)
    }
}

/// Checks a resolution against the domain: no diagnostic inside it, the
/// domain diagnostic outside.
pub fn resolution_error(resolution: i32) -> (r: Option<String>)
    ensures
        r is None <==> in_domain(resolution as int),
        r matches Some(e) ==> e@ == domain_text(),
{
    if 0 <= resolution && resolution <= FINEST_RESOLUTION {
        None
    } else {
        let text = String::from_str("resolution is outside the supported range 0..=29");
        proof {
            reveal_strlit("resolution is outside the supported range 0..=29");
        }
        Some(text)
    }
}

/// Decides whether an ancestor level can be asked of the engine for a cell of
/// the given resolution; returns the diagnostic when it cannot.
pub fn ancestor_error(parent_resolution: i32, own_resolution: i32) -> (r: Option<String>)
    ensures
        r is None <==> ancestor_refusal(parent_resolution as int, own_resolution as int) is None,
        r matches Some(e) ==> ancestor_refusal(parent_resolution as int, own_resolution as int)
            == Some(e@),
{
    if let Some(e) = resolution_error(parent_resolution) {
        return Some(e);
    }
    if parent_resolution > own_resolution {
        let text = String::from_str("target resolution is finer than the cell's own resolution");
        proof {
            reveal_strlit("target resolution is finer than the cell's own resolution");
        }
        return Some(text);
    }
    None
}

/// The resolution that the descendant lookup hands to the engine.
pub fn child_request(child_resolution: i32) -> (r: Option<i32>)
    ensures
        r == forwarded_child_resolution(child_resolution),
{
    if 0 <= child_resolution && child_resolution <= FINEST_RESOLUTION {
        None
    } else {
        Some(child_resolution)
    }
}

/// Number of cells that cover the sphere at a resolution.
pub fn get_num_cells(resolution: i32) -> (r: u64)
    requires
        resolution <= 30,
    ensures
        r as int == num_cells(resolution as int),
{
    engine_num_cells(resolution)
}

/// Resolution encoded in a cell identifier.
pub fn get_resolution(index: u64) -> (r: i32)
    ensures
        r as int == resolution_of(index),
        -1 <= r <= 30,
{
    engine_resolution(index)
}

/// Ancestor of a cell at a coarser (or equal) resolution.
pub fn cell_to_parent(index: u64, parent_resolution: i32) -> (r: ResultU64)
    ensures
        r.wf(),
        r.carries(parent_outcome(index, parent_resolution)),
        in_domain(parent_resolution as int) && in_domain(resolution_of(index))
            && parent_resolution <= resolution_of(index) ==> r.error is None,
        parent_resolution > resolution_of(index) ==> r.error is Some,
{
    let own = engine_resolution(index);
    if let Some(e) = ancestor_error(parent_resolution, own) {
        return ResultU64::failure(e.as_str());
    }
    let outcome = engine_parent(index, parent_resolution);
    ResultU64::from_result(outcome)
}

/// Descendants of a cell. See `forwarded_child_resolution` for which
/// resolution the engine is asked for.
pub fn cell_to_children(index: u64, child_resolution: i32) -> (r: CellArray)
    ensures
        r.wf(),
        r.carries(children_in_engine(index, forwarded_child_resolution(child_resolution))),
        child_resolution > 30 ==> r.error is Some,
{
    let outcome = engine_children(index, child_request(child_resolution));
    cell_vec_result_to_c(outcome)
}

/// The base cells: the whole surface at resolution 0.
pub fn get_res0_cells() -> (r: CellArray)
    ensures
        r.wf(),
        r.error is None,
        r.len == num_cells(0),
        r.carries(children_in_engine(0, Some(0i32))),
{
    let outcome = engine_res0_cells();
    cell_vec_result_to_c(outcome)
}

/// Each finer level splits every cell in four.
proof fn lemma_pow4_increasing(a: nat, b: nat)
    requires
        a < b,
    ensures
        pow4(a) < pow4(b),
    decreases b - a,
{
    if a + 1 < b {
        lemma_pow4_increasing(a, (b - 1) as nat);
    }
    lemma_pow4_positive((b - 1) as nat);
}

/// Powers of four are positive.
proof fn lemma_pow4_positive(n: nat)
    ensures
        pow4(n) >= 1,
    decreases n,
{
    if n > 0 {
        lemma_pow4_positive((n - 1) as nat);
    }
}

/// The cell count grows strictly with the resolution over the whole domain.
pub proof fn lemma_cell_count_increasing(coarse: int, fine: int)
    requires
        in_domain(coarse),
        in_domain(fine),
        coarse < fine,
    ensures
        num_cells(coarse) < num_cells(fine),
{
    if coarse == 0 {
        lemma_pow4_positive((fine - 1) as nat);
    } else {
        lemma_pow4_increasing((coarse - 1) as nat, (fine - 1) as nat);
    }
}

} // verus!

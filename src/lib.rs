//! A boundary layer over the A5 pentagonal discrete global grid.
//!
//! Every operation is a pure call into the `a5` engine whose typed outcome is
//! packaged into an envelope: a scalar or a buffer, or else a diagnostic text
//! that is safe to hand across a C boundary.
pub mod engine;
pub mod envelope;
pub mod grid;

pub use envelope::{
    boundary_message, cell_vec_result_to_c, ArrayEnvelope, CellArray, ResultU64,
};
pub use grid::{
    ancestor_error, cell_to_children, cell_to_parent, child_request, get_num_cells, get_res0_cells, get_resolution,
    resolution_error, FINEST_RESOLUTION,
};

//! Numerical core of a relativistic hydrodynamics solver on a doubly periodic
//! square grid: periodic indexing, the five-point face-reconstruction stencil,
//! and the shape and domain checks of the primitive-to-conserved transform.
//!
//! Every item here is generic over the sample type or works on integers and
//! flags; the floating-point arithmetic on samples is done by the caller.
mod periodic;

pub use periodic::index_periodic;
pub use periodic::lemma_wrap_is_mod;
pub use periodic::wrap;
mod field;

pub use field::{is_constant, is_square, rows_view, Field, ShapeError};
mod stencil;

pub use stencil::{
    face_offset, gather, gather_stencil, lemma_constant_field_reconstructs_constant,
    lemma_minus_x_mirrors_plus_x, lemma_minus_y_mirrors_plus_y, reverse_cols, reverse_rows, sample, stencil_taps, taps_at,
    uniform_taps, weighted_sum, Axis, Face, Taps, WEIGHT_CENTER, WEIGHT_DENOMINATOR,
    WEIGHT_DOWNWIND, WEIGHT_FAR_DOWNWIND, WEIGHT_FAR_UPWIND, WEIGHT_UPWIND,
};
mod state;

pub use state::{
    check_conversion, check_quantity, first_violation, is_first_violation, reports, same_grid,
    Conserved, DomainError, FluidError, Metric, Primitive, Quantity,
};

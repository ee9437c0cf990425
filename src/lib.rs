//! A software triangle rasterizer's integer core: screen buffers, scan bounds,
//! vertex ordering and texture lookup.

mod scan;
mod screen;
mod texture;

pub use scan::{clamp_range, order_by_key, scan_hi, scan_lo, sorted_order};
pub use screen::{
    filled, in_span, lemma_later_span_wins, lemma_span_stays_on_grid, on_grid, span_written, Screen,
};
pub use texture::{sample_nearest, texels, texture_size};

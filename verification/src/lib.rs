//! Rendering of system activity reports.

pub mod clock;
pub mod clock_laws;
pub mod doc;
pub mod model;
pub mod sadf;
pub mod sar_el7;
pub mod sar_text;
pub mod slice;
pub mod slice_laws;
pub mod text;
pub mod text_laws;
pub mod within;

//! Statistics for other programs: flat, nested and raw formats.

pub mod access;
pub mod activities;
pub mod column_laws;
pub mod config;
pub mod dbppc;
pub mod description_laws;
pub mod document_laws;
pub mod fields;
pub mod file;
pub mod flat_laws;
pub mod header;
pub mod interrupt_laws;
pub mod item_laws;
pub mod items;
pub mod json;
pub mod logic1;
pub mod logic2;
pub mod logic_laws;
pub mod moment_laws;
pub mod naming_laws;
pub mod nested_item_laws;
pub mod nested_laws;
pub mod placement_laws;
pub mod range;
pub mod raw;
pub mod raw_laws;
pub mod record_laws;
pub mod records;
pub mod render;
pub mod select;
pub mod stamp;
pub mod stamp_laws;
pub mod table;
pub mod table_laws;
pub mod value;
pub mod xml;

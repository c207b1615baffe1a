//! The text report of `sar`.

pub mod average_laws;
pub mod block;
pub mod block_laws;
pub mod cell;
pub mod column_laws;
pub mod columns;
pub mod event_laws;
pub mod extremes;
pub mod group_laws;
pub mod groups;
pub mod header;
pub mod label_laws;
pub mod layout;
pub mod lines;
pub mod options;
pub mod report;
pub mod report_laws;
pub mod row_laws;
pub mod rows;
pub mod run;

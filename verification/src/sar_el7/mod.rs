//! Reports on files of an older release, laid out as that release laid them out.

pub mod heading_laws;
pub mod laws;
pub mod pass_laws;
pub mod options;
pub mod record_laws;
pub mod records;
pub mod report;
pub mod rows;

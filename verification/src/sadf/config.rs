//! What is shown.

use vstd::prelude::*;

use crate::model::{list_contains, listed, ActivityId};
use crate::sadf::select::RecordSelect;
use crate::sadf::stamp::TimeBase;
use crate::sadf::table::{all_sections, SectionConfig};
use crate::sar_text::options::{name_is_selected, name_passes, CpuSelection, NameFilter};

verus! {

/// What is shown.
#[derive(Debug)]
pub struct SadfConfig {
    pub time_base: TimeBase,
    /// Whether comments are shown.
    pub comments: bool,
    /// Whether the raw format says how the file was read.
    pub debug: bool,
    /// Whether the database format puts all activities of a record on one line.
    pub horizontally: bool,
    pub section: SectionConfig,
    /// The activities that are shown; without it, all of the file.
    pub activities: Option<Vec<ActivityId>>,
    pub cpus: CpuSelection,
    /// The names that items are narrowed down to.
    pub item_names: Vec<NameFilter>,
}

impl Default for SadfConfig {
    fn default() -> (r: Self)
        ensures
            r.time_base == TimeBase::Utc,
            !r.comments,
            !r.debug,
            !r.horizontally,
            r.section == all_sections(),
            r.activities is None,
            r.cpus == CpuSelection::Aggregate,
            r.item_names@.len() == 0,
    {
        SadfConfig {
            time_base: TimeBase::Utc,
            comments: false,
            debug: false,
            horizontally: false,
            section: SectionConfig::default(),
            activities: None,
            cpus: CpuSelection::Aggregate,
            item_names: Vec::new(),
        }
    }
}

impl SadfConfig {
    /// Whether an item with this name is shown.
    pub fn name_selected(&self, id: ActivityId, name: &str) -> (r: bool)
        ensures
            r == name_passes(self.item_names@, id, name@),
    {
        name_is_selected(&self.item_names, id, name)
    }

    /// Whether an activity is shown.
    pub open spec fn selects(self, id: ActivityId) -> bool {
        match self.activities {
            None => true,
            Some(ids) => listed(ids@, id),
        }
    }

    /// Whether an activity is shown.
    pub fn is_selected(&self, id: ActivityId) -> (r: bool)
        ensures
            r == self.selects(id),
    {
        match &self.activities {
            None => true,
            Some(ids) => list_contains(ids, id),
        }
    }
}

/// Which records are shown, and the name of the reader's zone.
#[derive(Debug)]
pub struct SadfExtra {
    pub select: RecordSelect,
    pub local_tz: String,
}

}

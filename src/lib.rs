//! Inventory maintenance: due dates of recurring inspections, their urgency,
//! and the checklist execution workflow.
use vstd::prelude::*;

pub mod app_info;
pub mod calendar;
pub mod interval;
pub mod urgency;
pub mod exts;
pub mod records;
pub mod store;
pub mod cache;
pub mod ordering;
pub mod checks;
pub mod checklists;
pub mod inventory;
pub mod home;
pub mod search;
pub mod details;

verus! {

} // verus!

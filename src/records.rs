//! Rows of the inventory tables.
use crate::calendar::Timestamp;
use crate::interval::Interval;
use vstd::prelude::*;

verus! {

/// Failures surfaced to callers.
#[derive(Clone, Debug, PartialEq, Eq)]
pub enum AppError {
    /// A referenced item or checklist does not exist.
    NotFound,
    /// The request breaks a rule; the text says which.
    BadRequest(String),
    /// The reference data is not loaded, or an item names a missing checklist.
    InternalServerError,
    /// A table has no identifier left to give.
    Storage,
}

/// A copy of an optional text.
pub fn copy_text(t: &Option<String>) -> (r: Option<String>)
    ensures
        r == *t,
{
    match t {
        Some(s) => Some(s.clone()),
        None => None,
    }
}

/// A row with an integer identifier.
pub trait Keyed: Sized {
    spec fn key(&self) -> i32;

    fn id(&self) -> (r: i32)
        ensures
            r == self.key(),
    ;

    /// A copy of the row, field by field.
    fn duplicate(&self) -> (r: Self)
        ensures
            r == *self,
    ;
}

#[derive(Clone, Debug, PartialEq, Eq)]
pub struct ChecklistRecord {
    pub id: i32,
    pub name: String,
    pub description: Option<String>,
}

#[derive(Clone, Debug, PartialEq, Eq)]
pub struct ChecklistStep {
    pub id: i32,
    pub checklist_id: i32,
    pub position: i32,
    pub name: String,
    pub description: Option<String>,
}

#[derive(Clone, Debug, PartialEq, Eq)]
pub struct ItemKind {
    pub id: i32,
    pub name: String,
    pub default_checklist_id: i32,
    pub default_interval_id: i32,
    pub default_expiry_id: i32,
}

#[derive(Clone, Debug, PartialEq, Eq)]
pub struct ResultCode {
    pub id: i32,
    pub code: String,
}

#[derive(Clone, Debug, PartialEq, Eq)]
pub struct User {
    pub id: i32,
    pub name: String,
}

#[derive(Clone, Debug, PartialEq, Eq)]
pub struct InventoryItem {
    pub id: i32,
    pub name: String,
    pub serial_number: Option<String>,
    pub created_at: Timestamp,
    pub last_checked_at: Option<Timestamp>,
    pub expiry: Option<Timestamp>,
    pub kind_id: i32,
    pub checklist_id: i32,
    pub interval_id: i32,
}

/// Snapshot of a checklist taken when a check runs.
#[derive(Clone, Debug, PartialEq, Eq)]
pub struct ExecutedChecklist {
    pub id: i32,
    pub name: String,
    pub description: Option<String>,
}

/// Snapshot of one checklist step taken when a check runs.
#[derive(Clone, Debug, PartialEq, Eq)]
pub struct ExecutedChecklistStep {
    pub id: i32,
    pub executed_checklist_id: i32,
    pub position: i32,
    pub name: String,
    pub description: Option<String>,
}

/// One completed inspection of an item.
#[derive(Clone, Debug, PartialEq, Eq)]
pub struct InventoryItemCheck {
    pub id: i32,
    pub finished: bool,
    pub checked_at: Timestamp,
    pub notes: Option<String>,
    pub item_id: i32,
    pub executed_checklist_id: i32,
    pub checked_by: i32,
    pub result_id: i32,
}

/// The result recorded for one step of a check.
#[derive(Clone, Debug, PartialEq, Eq)]
pub struct InventoryItemCheckStep {
    pub id: i32,
    pub check_id: i32,
    pub executed_checklist_step_id: i32,
    pub result_id: i32,
    pub notes: Option<String>,
}

impl Keyed for ChecklistRecord {
    open spec fn key(&self) -> i32 {
        self.id
    }

    fn id(&self) -> (r: i32) {
        self.id
    }

    fn duplicate(&self) -> (r: Self) {
        ChecklistRecord {
            id: self.id,
            name: self.name.clone(),
            description: copy_text(&self.description),
        }
    }
}

impl Keyed for ChecklistStep {
    open spec fn key(&self) -> i32 {
        self.id
    }

    fn id(&self) -> (r: i32) {
        self.id
    }

    fn duplicate(&self) -> (r: Self) {
        ChecklistStep {
            id: self.id,
            checklist_id: self.checklist_id,
            position: self.position,
            name: self.name.clone(),
            description: copy_text(&self.description),
        }
    }
}

impl Keyed for ItemKind {
    open spec fn key(&self) -> i32 {
        self.id
    }

    fn id(&self) -> (r: i32) {
        self.id
    }

    fn duplicate(&self) -> (r: Self) {
        ItemKind {
            id: self.id,
            name: self.name.clone(),
            default_checklist_id: self.default_checklist_id,
            default_interval_id: self.default_interval_id,
            default_expiry_id: self.default_expiry_id,
        }
    }
}

impl Keyed for ResultCode {
    open spec fn key(&self) -> i32 {
        self.id
    }

    fn id(&self) -> (r: i32) {
        self.id
    }

    fn duplicate(&self) -> (r: Self) {
        ResultCode {
            id: self.id,
            code: self.code.clone(),
        }
    }
}

impl Keyed for User {
    open spec fn key(&self) -> i32 {
        self.id
    }

    fn id(&self) -> (r: i32) {
        self.id
    }

    fn duplicate(&self) -> (r: Self) {
        User {
            id: self.id,
            name: self.name.clone(),
        }
    }
}

impl Keyed for Interval {
    open spec fn key(&self) -> i32 {
        self.id
    }

    fn id(&self) -> (r: i32) {
        self.id
    }

    fn duplicate(&self) -> (r: Self) {
        Interval {
            id: self.id,
            code: self.code.clone(),
            unit: self.unit.clone(),
            amount: self.amount,
        }
    }
}

impl Keyed for InventoryItem {
    open spec fn key(&self) -> i32 {
        self.id
    }

    fn id(&self) -> (r: i32) {
        self.id
    }

    fn duplicate(&self) -> (r: Self) {
        InventoryItem {
            id: self.id,
            name: self.name.clone(),
            serial_number: copy_text(&self.serial_number),
            created_at: self.created_at,
            last_checked_at: self.last_checked_at,
            expiry: self.expiry,
            kind_id: self.kind_id,
            checklist_id: self.checklist_id,
            interval_id: self.interval_id,
        }
    }
}

impl Keyed for ExecutedChecklist {
    open spec fn key(&self) -> i32 {
        self.id
    }

    fn id(&self) -> (r: i32) {
        self.id
    }

    fn duplicate(&self) -> (r: Self) {
        ExecutedChecklist {
            id: self.id,
            name: self.name.clone(),
            description: copy_text(&self.description),
        }
    }
}

impl Keyed for ExecutedChecklistStep {
    open spec fn key(&self) -> i32 {
        self.id
    }

    fn id(&self) -> (r: i32) {
        self.id
    }

    fn duplicate(&self) -> (r: Self) {
        ExecutedChecklistStep {
            id: self.id,
            executed_checklist_id: self.executed_checklist_id,
            position: self.position,
            name: self.name.clone(),
            description: copy_text(&self.description),
        }
    }
}

impl Keyed for InventoryItemCheck {
    open spec fn key(&self) -> i32 {
        self.id
    }

    fn id(&self) -> (r: i32) {
        self.id
    }

    fn duplicate(&self) -> (r: Self) {
        InventoryItemCheck {
            id: self.id,
            finished: self.finished,
            checked_at: self.checked_at,
            notes: copy_text(&self.notes),
            item_id: self.item_id,
            executed_checklist_id: self.executed_checklist_id,
            checked_by: self.checked_by,
            result_id: self.result_id,
        }
    }
}

impl Keyed for InventoryItemCheckStep {
    open spec fn key(&self) -> i32 {
        self.id
    }

    fn id(&self) -> (r: i32) {
        self.id
    }

    fn duplicate(&self) -> (r: Self) {
        InventoryItemCheckStep {
            id: self.id,
            check_id: self.check_id,
            executed_checklist_step_id: self.executed_checklist_step_id,
            result_id: self.result_id,
            notes: copy_text(&self.notes),
        }
    }
}

} // verus!

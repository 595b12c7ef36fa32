//! Reference data kept in memory, keyed by identifier.
use crate::interval::Interval;
use crate::records::{AppError, ChecklistRecord, ItemKind, Keyed, ResultCode, User};
use crate::store::Inventory;
use std::collections::BTreeMap;
use vstd::prelude::*;

verus! {

/// Each row of `rows` under its identifier; of rows sharing one, the last.
pub open spec fn table_of<T: Keyed>(rows: Seq<T>) -> Map<i32, T>
    decreases rows.len(),
{
    if rows.len() == 0 {
        Map::empty()
    } else {
        table_of(rows.drop_last()).insert(rows.last().key(), rows.last())
    }
}

/// Builds the map from identifier to row.
pub fn index_by_id<T: Keyed>(rows: &Vec<T>) -> (m: BTreeMap<i32, T>)
    ensures
        m@ == table_of(rows@),
{
    broadcast use vstd::laws_cmp::group_laws_cmp;

    let mut m: BTreeMap<i32, T> = BTreeMap::new();
    let mut i: usize = 0;
    while i < rows.len()
        invariant
            i <= rows.len(),
            m@ == table_of(rows@.subrange(0, i as int)),
        decreases rows.len() - i,
    {
        let row = rows[i].duplicate();
        proof {
            assert(rows@.subrange(0, i + 1).drop_last() =~= rows@.subrange(0, i as int));
        }
        m.insert(row.id(), row);
        i += 1;
    }
    assert(rows@.subrange(0, rows.len() as int) =~= rows@);
    m
}

/// The six reference tables; a table that was never loaded is `None`.
pub struct AppCache {
    pub checklists: Option<BTreeMap<i32, ChecklistRecord>>,
    pub intervals: Option<BTreeMap<i32, Interval>>,
    pub expiries: Option<BTreeMap<i32, Interval>>,
    pub item_kinds: Option<BTreeMap<i32, ItemKind>>,
    pub results: Option<BTreeMap<i32, ResultCode>>,
    pub users: Option<BTreeMap<i32, User>>,
}

pub open spec fn loaded<V>(table: Option<BTreeMap<i32, V>>) -> Option<Map<i32, V>> {
    match table {
        Some(m) => Some(m@),
        None => None,
    }
}

/// What a lookup of a whole table gives: its contents, or an internal error
/// before it was loaded.
pub open spec fn table_result<V>(
    table: Option<BTreeMap<i32, V>>,
    r: Result<BTreeMap<i32, V>, AppError>,
) -> bool {
    match table {
        Some(m) => r matches Ok(c) && c@ == m@,
        None => r == Err::<BTreeMap<i32, V>, AppError>(AppError::InternalServerError),
    }
}

impl AppCache {
    /// A cache with nothing loaded yet.
    pub fn empty() -> (r: AppCache)
        ensures
            r.checklists is None,
            r.intervals is None,
            r.expiries is None,
            r.item_kinds is None,
            r.results is None,
            r.users is None,
    {
        AppCache {
            checklists: None,
            intervals: None,
            expiries: None,
            item_kinds: None,
            results: None,
            users: None,
        }
    }

    /// Every table is loaded and mirrors the inventory's.
    pub open spec fn mirrors(&self, db: &Inventory) -> bool {
        &&& loaded(self.checklists) == Some(table_of(db.checklists@))
        &&& loaded(self.intervals) == Some(table_of(db.intervals@))
        &&& loaded(self.expiries) == Some(table_of(db.expiries@))
        &&& loaded(self.item_kinds) == Some(table_of(db.item_kinds@))
        &&& loaded(self.results) == Some(table_of(db.results@))
        &&& loaded(self.users) == Some(table_of(db.users@))
    }
}

/// Whole-table access to the reference data.
pub trait AppData {
    fn get_checklists(&self) -> Result<BTreeMap<i32, ChecklistRecord>, AppError>;

    fn get_intervals(&self) -> Result<BTreeMap<i32, Interval>, AppError>;

    fn get_expiries(&self) -> Result<BTreeMap<i32, Interval>, AppError>;

    fn get_item_kinds(&self) -> Result<BTreeMap<i32, ItemKind>, AppError>;

    fn get_results(&self) -> Result<BTreeMap<i32, ResultCode>, AppError>;

    fn get_users(&self) -> Result<BTreeMap<i32, User>, AppError>;
}

impl AppData for AppCache {
    fn get_checklists(&self) -> (r: Result<BTreeMap<i32, ChecklistRecord>, AppError>)
        ensures
            table_result(self.checklists, r),
    {
        match &self.checklists {
            Some(m) => Ok(m.clone()),
            None => Err(AppError::InternalServerError),
        }
    }

    fn get_intervals(&self) -> (r: Result<BTreeMap<i32, Interval>, AppError>)
        ensures
            table_result(self.intervals, r),
    {
        match &self.intervals {
            Some(m) => Ok(m.clone()),
            None => Err(AppError::InternalServerError),
        }
    }

    fn get_expiries(&self) -> (r: Result<BTreeMap<i32, Interval>, AppError>)
        ensures
            table_result(self.expiries, r),
    {
        match &self.expiries {
            Some(m) => Ok(m.clone()),
            None => Err(AppError::InternalServerError),
        }
    }

    fn get_item_kinds(&self) -> (r: Result<BTreeMap<i32, ItemKind>, AppError>)
        ensures
            table_result(self.item_kinds, r),
    {
        match &self.item_kinds {
            Some(m) => Ok(m.clone()),
            None => Err(AppError::InternalServerError),
        }
    }

    fn get_results(&self) -> (r: Result<BTreeMap<i32, ResultCode>, AppError>)
        ensures
            table_result(self.results, r),
    {
        match &self.results {
            Some(m) => Ok(m.clone()),
            None => Err(AppError::InternalServerError),
        }
    }

    fn get_users(&self) -> (r: Result<BTreeMap<i32, User>, AppError>)
        ensures
            table_result(self.users, r),
    {
        match &self.users {
            Some(m) => Ok(m.clone()),
            None => Err(AppError::InternalServerError),
        }
    }
}

/// Loads the reference data at start-up.
pub struct AppCacheInitializer;

impl AppCacheInitializer {
    pub fn name(&self) -> (r: String)
        ensures
            r@ == "app-cache"@,
    {
        String::from_str("app-cache")
    }

    /// Replaces every table of the cache with a fresh copy of the inventory's.
    /// Each table is built in full before it takes the old one's place.
    pub fn reload_cached(cache: &mut AppCache, db: &Inventory)
        ensures
            final(cache).mirrors(db),
    {
        let checklists = index_by_id(&db.checklists);
        cache.checklists = Some(checklists);
        let intervals = index_by_id(&db.intervals);
        cache.intervals = Some(intervals);
        let expiries = index_by_id(&db.expiries);
        cache.expiries = Some(expiries);
        refresh_item_kinds_cache(cache, db);
        let results = index_by_id(&db.results);
        cache.results = Some(results);
        refresh_users_cache(cache, db);
    }

    pub fn before_run(&self, cache: &mut AppCache, db: &Inventory)
        ensures
            final(cache).mirrors(db),
    {
        AppCacheInitializer::reload_cached(cache, db)
    }
}

/// Rebuilds the item-kind table from the inventory; the others stay.
pub fn refresh_item_kinds_cache(cache: &mut AppCache, db: &Inventory)
    ensures
        loaded(final(cache).item_kinds) == Some(table_of(db.item_kinds@)),
        final(cache).checklists == old(cache).checklists,
        final(cache).intervals == old(cache).intervals,
        final(cache).expiries == old(cache).expiries,
        final(cache).results == old(cache).results,
        final(cache).users == old(cache).users,
{
    let map = index_by_id(&db.item_kinds);
    cache.item_kinds = Some(map);
}

/// Rebuilds the user table from the inventory; the others stay.
pub fn refresh_users_cache(cache: &mut AppCache, db: &Inventory)
    ensures
        loaded(final(cache).users) == Some(table_of(db.users@)),
        final(cache).checklists == old(cache).checklists,
        final(cache).intervals == old(cache).intervals,
        final(cache).expiries == old(cache).expiries,
        final(cache).item_kinds == old(cache).item_kinds,
        final(cache).results == old(cache).results,
{
    let map = index_by_id(&db.users);
    cache.users = Some(map);
}

} // verus!

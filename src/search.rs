//! The inventory list and its search box.
use crate::cache::{AppCache, AppData};
use crate::exts::{cleaned_opt, opt_text, BTreeMapExt, OptionStringExt};
use crate::records::{copy_text, AppError, InventoryItem, ItemKind, Keyed};
use crate::store::Inventory;
use std::collections::BTreeMap;
use vstd::prelude::*;
use vstd::string::*;

verus! {

/// What `str::to_lowercase` gives for a text.
pub uninterp spec fn lowercase(s: Seq<char>) -> Seq<char>;

/// Relies on `str::to_lowercase`: the text with every character lowercased.
#[verifier::external_body]
fn lower_text(s: &str) -> (r: String)
    ensures
        r@ == lowercase(s@),
{
    s.to_lowercase()
}

/// `needle` occurs in `hay`.
pub open spec fn contains_text(hay: Seq<char>, needle: Seq<char>) -> bool {
    exists|i: int| 0 <= i <= hay.len() - needle.len() && #[trigger] hay.subrange(i, i + needle.len()) == needle
}

/// Whether `needle` occurs in `hay`.
pub fn text_contains(hay: &str, needle: &str) -> (r: bool)
    ensures
        r == contains_text(hay@, needle@),
{
    let n = hay.unicode_len();
    let m = needle.unicode_len();
    if m > n {
        return false;
    }
    let mut i: usize = 0;
    while i <= n - m
        invariant
            n == hay@.len(),
            m == needle@.len(),
            m <= n,
            i <= n - m + 1,
            forall|j: int| 0 <= j < i ==> #[trigger] hay@.subrange(j, j + m) != needle@,
        decreases n - m + 1 - i,
    {
        let mut k: usize = 0;
        while k < m && hay.get_char(i + k) == needle.get_char(k)
            invariant
                n == hay@.len(),
                m == needle@.len(),
                i + m <= n,
                k <= m,
                forall|t: int| 0 <= t < k ==> hay@[i + t] == needle@[t],
            decreases m - k,
        {
            k += 1;
        }
        if k == m {
            assert(hay@.subrange(i as int, i + m) =~= needle@);
            return true;
        }
        proof {
            assert(hay@.subrange(i as int, i + m)[k as int] != needle@[k as int]);
        }
        i += 1;
    }
    false
}

/// The search query: free text, if any.
pub struct InventoryListQuery {
    pub q: Option<String>,
}

/// One row of the inventory list.
pub struct InventoryListItem {
    pub item: InventoryItem,
    pub kind_name: Option<String>,
    pub serial: Option<String>,
}

/// What the list shows: the one item whose serial number is the search
/// term, or the matching rows with the term echoed back.
pub enum InventoryListing {
    Redirect(i32),
    Rows { rows: Vec<InventoryListItem>, search: Option<String> },
}

/// The item's serial number is the term, ignoring case.
pub open spec fn serial_is(item: InventoryItem, term: Seq<char>) -> bool {
    item.serial_number matches Some(s) && lowercase(s@) == term
}

/// The term occurs, ignoring case, in the item's name, serial number or kind name.
pub open spec fn search_hit(item: InventoryItem, term: Seq<char>, kinds: Map<i32, ItemKind>) -> bool {
    ||| contains_text(lowercase(item.name@), term)
    ||| (item.serial_number matches Some(s) && contains_text(lowercase(s@), term))
    ||| (kinds.contains_key(item.kind_id) && contains_text(lowercase(kinds[item.kind_id].name@), term))
}

pub open spec fn shown(term: Option<Seq<char>>, kinds: Map<i32, ItemKind>) -> spec_fn(InventoryItem) -> bool {
    |item: InventoryItem|
        match term {
            Some(t) => search_hit(item, lowercase(t), kinds),
            None => true,
        }
}

/// The row shown for `item`.
pub open spec fn row_matches(row: InventoryListItem, item: InventoryItem, kinds: Map<i32, ItemKind>) -> bool {
    &&& row.item == item
    &&& row.serial == item.serial_number
    &&& opt_text(row.kind_name) == (if kinds.contains_key(item.kind_id) {
        Some(kinds[item.kind_id].name@)
    } else {
        None
    })
}

fn serial_lower_equals(item: &InventoryItem, term_lower: &String) -> (r: bool)
    ensures
        r == serial_is(*item, term_lower@),
{
    match &item.serial_number {
        Some(s) => lower_text(s.as_str()) == *term_lower,
        None => false,
    }
}

fn matches_search(item: &InventoryItem, term_lower: &String, kinds: &BTreeMap<i32, ItemKind>) -> (r: bool)
    ensures
        r == search_hit(*item, term_lower@, kinds@),
{
    broadcast use vstd::std_specs::btree::group_btree_axioms;
    broadcast use vstd::laws_cmp::group_laws_cmp;

    let needle = term_lower.as_str();
    let name_match = text_contains(lower_text(item.name.as_str()).as_str(), needle);
    let serial_match = match &item.serial_number {
        Some(s) => text_contains(lower_text(s.as_str()).as_str(), needle),
        None => false,
    };
    let kind_match = match kinds.get(&item.kind_id) {
        Some(kind) => text_contains(lower_text(kind.name.as_str()).as_str(), needle),
        None => false,
    };
    name_match || serial_match || kind_match
}

/// Lists the inventory. A search term (trimmed; blank means none) that equals
/// an item's serial number, ignoring case, leads to that item; otherwise the
/// items whose name, serial number or kind name contain it are listed.
pub fn list(db: &Inventory, cache: &AppCache, query: InventoryListQuery) -> (r: Result<InventoryListing, AppError>)
    ensures
        match r {
            Ok(InventoryListing::Redirect(id)) => cleaned_opt(query.q) matches Some(t) && exists|i: int|
                0 <= i < db.items@.len() && db.items@[i].id == id && serial_is(
                    db.items@[i],
                    lowercase(t),
                ) && forall|k: int| 0 <= k < i ==> !serial_is(#[trigger] db.items@[k], lowercase(t)),
            Ok(InventoryListing::Rows { rows, search }) => {
                let kinds = cache.item_kinds->0@;
                let picked = db.items@.filter(shown(cleaned_opt(query.q), kinds));
                &&& cache.item_kinds is Some
                &&& opt_text(search) == cleaned_opt(query.q)
                &&& (cleaned_opt(query.q) matches Some(t) ==> forall|k: int|
                    0 <= k < db.items@.len() ==> !serial_is(#[trigger] db.items@[k], lowercase(t)))
                &&& rows@.len() == picked.len()
                &&& forall|j: int| 0 <= j < rows@.len() ==> row_matches(#[trigger] rows@[j], picked[j], kinds)
            },
            Err(e) => e == AppError::InternalServerError && cache.item_kinds is None,
        },
{
    broadcast use vstd::std_specs::btree::group_btree_axioms;
    broadcast use vstd::laws_cmp::group_laws_cmp;

    let search_term = copy_text(&query.q).clean();
    let term_lower = match &search_term {
        Some(t) => Some(lower_text(t.as_str())),
        None => None,
    };
    let item_kinds = match cache.get_item_kinds() {
        Ok(m) => m,
        Err(e) => return Err(e),
    };
    let items = &db.items;
    if let Some(t) = &term_lower {
        let mut i: usize = 0;
        while i < items.len()
            invariant
                i <= items.len(),
                forall|k: int| 0 <= k < i ==> !serial_is(#[trigger] items@[k], t@),
                opt_text(search_term) == cleaned_opt(query.q),
                search_term matches Some(s) && t@ == lowercase(s@),
                items == &db.items,
            decreases items.len() - i,
        {
            if serial_lower_equals(&items[i], t) {
                proof {
                    let w = i as int;
                    assert(0 <= w < db.items@.len() && db.items@[w].id == items[w].id);
                }
                return Ok(InventoryListing::Redirect(items[i].id));
            }
            i += 1;
        }
    }
    let mut rows: Vec<InventoryListItem> = Vec::new();
    let mut i: usize = 0;
    while i < items.len()
        invariant
            i <= items.len(),
            opt_text(search_term) == cleaned_opt(query.q),
            match term_lower {
                Some(t) => search_term matches Some(s) && t@ == lowercase(s@),
                None => search_term is None,
            },
            rows@.len() == items@.subrange(0, i as int).filter(shown(cleaned_opt(query.q), item_kinds@)).len(),
            forall|j: int|
                0 <= j < rows@.len() ==> row_matches(
                    #[trigger] rows@[j],
                    items@.subrange(0, i as int).filter(shown(cleaned_opt(query.q), item_kinds@))[j],
                    item_kinds@,
                ),
        decreases items.len() - i,
    {
        let item = &items[i];
        let ghost prefix = items@.subrange(0, i as int);
        let ghost next = items@.subrange(0, i + 1);
        proof {
            assert(next.drop_last() =~= prefix);
            assert(next.last() == items@[i as int]);
            reveal(Seq::filter);
        }
        let hit = match &term_lower {
            Some(t) => matches_search(item, t, &item_kinds),
            None => true,
        };
        if hit {
            let kind_name = item_kinds.get_cloned(&item.kind_id, |k: &ItemKind| -> (n: &String) ensures *n == k.name { &k.name });
            let row = InventoryListItem {
                item: item.duplicate(),
                kind_name,
                serial: copy_text(&item.serial_number),
            };
            proof {
                assert(row_matches(row, items@[i as int], item_kinds@));
            }
            rows.push(row);
        }
        i += 1;
    }
    assert(items@.subrange(0, items@.len() as int) =~= items@);
    Ok(InventoryListing::Rows { rows, search: search_term })
}

} // verus!

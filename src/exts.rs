//! Small helpers on text and maps.
use std::collections::BTreeMap;
use vstd::laws_cmp::obeys_cmp;
use vstd::prelude::*;

verus! {

/// What `str::trim` leaves of a text.
pub uninterp spec fn trimmed(s: Seq<char>) -> Seq<char>;

/// Relies on `str::trim`: the text without its leading and trailing white space.
#[verifier::external_body]
pub(crate) fn trim_text(s: &str) -> (r: String)
    ensures
        r@ == trimmed(s@),
{
    s.trim().to_string()
}

/// Trimmed text, with nothing left meaning absent.
pub open spec fn cleaned(s: Seq<char>) -> Option<Seq<char>> {
    if trimmed(s).len() == 0 {
        None
    } else {
        Some(trimmed(s))
    }
}

pub open spec fn opt_text(o: Option<String>) -> Option<Seq<char>> {
    match o {
        Some(s) => Some(s@),
        None => None,
    }
}

pub open spec fn cleaned_opt(o: Option<String>) -> Option<Seq<char>> {
    match o {
        Some(s) => cleaned(s@),
        None => None,
    }
}

/// Trims `s`; a text that is empty once trimmed becomes `None`.
pub fn clean_text(s: &str) -> (r: Option<String>)
    ensures
        opt_text(r) == cleaned(s@),
{
    let trimmed = trim_text(s);
    if trimmed.as_str().is_empty() {
        None
    } else {
        Some(trimmed)
    }
}

pub trait OptionStringExt {
    fn clean(self) -> Option<String>;
}

impl OptionStringExt for Option<String> {
    fn clean(self) -> (r: Option<String>)
        ensures
            opt_text(r) == cleaned_opt(self),
    {
        match self {
            Some(value) => clean_text(value.as_str()),
            None => None,
        }
    }
}

pub trait StringExt {
    fn clean(self) -> Option<String>;
}

impl StringExt for String {
    fn clean(self) -> (r: Option<String>)
        ensures
            opt_text(r) == cleaned(self@),
    {
        clean_text(self.as_str())
    }
}

pub trait BTreeMapExt<K, V> {
    /// Looks `key` up and clones the part of its value that `f` picks.
    fn get_cloned<T, F>(&self, key: &K, f: F) -> Option<T> where F: Fn(&V) -> &T, T: Clone
        requires
            forall|v: &V| #[trigger] f.requires((v,)),
    ;
}

impl<K: Ord, V> BTreeMapExt<K, V> for BTreeMap<K, V> {
    fn get_cloned<T, F>(&self, key: &K, f: F) -> (r: Option<T>) where F: Fn(&V) -> &T, T: Clone
        ensures
            obeys_cmp::<K>() ==> (r is Some <==> self@.contains_key(*key)),
            obeys_cmp::<K>() ==> (r matches Some(t) ==> exists|part: &T|
                #[trigger] f.ensures((&self@[*key],), part) && cloned(*part, t)),
    {
        broadcast use vstd::std_specs::btree::group_btree_axioms;

        match self.get(key) {
            Some(value) => {
                let part = f(value);
                let t = part.clone();
                proof {
                    if obeys_cmp::<K>() {
                        assert(*value == self@[*key]);
                        assert(f.ensures((&self@[*key],), part) && cloned(*part, t));
                    }
                }
                Some(t)
            },
            None => None,
        }
    }
}

} // verus!

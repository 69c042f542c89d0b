//! Whether an item a replacement just displaced should be dropped.
//!
//! Only ever asked about an item a successful swap already displaced; the
//! drop click itself is the application's.
use vstd::prelude::*;
use crate::config::AutoDropCategoryConfig;
use crate::text::str_equal;

verus! {

/// Whether `item_id` is one of the protected ids, by exact match.
pub open spec fn is_protected(item_id: Seq<char>, protected_items: Seq<String>) -> bool {
    exists|i: int| 0 <= i < protected_items.len() && protected_items[i]@ == item_id
}

/// Whether a just-displaced item should be dropped: the master switch, the
/// category switch and its trigger all on, and the item not protected --
/// protection wins over every other setting.
pub fn should_drop(
    autodrop_enabled: bool,
    category: &AutoDropCategoryConfig,
    item_id: &str,
    protected_items: &[String],
) -> (r: bool)
    ensures
        r == (autodrop_enabled && category.enabled && category.drop_when_better_available
            && !is_protected(item_id@, protected_items@)),
{
    if !(autodrop_enabled && category.enabled && category.drop_when_better_available) {
        return false;
    }
    let mut i: usize = 0;
    while i < protected_items.len()
        invariant
            i <= protected_items.len(),
            forall|j: int| 0 <= j < i ==> protected_items@[j]@ != item_id@,
        decreases protected_items.len() - i,
    {
        if str_equal(protected_items[i].as_str(), item_id) {
            return false;
        }
        i = i + 1;
    }
    true
}

} // verus!

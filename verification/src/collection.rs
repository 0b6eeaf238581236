use vstd::prelude::*;

use crate::models::{CollectionItemPatch, CollectionItemView};

verus! {

/// A collection record with the ownership rule applied: an owned volume is never
/// also on the wishlist.
pub open spec fn with_ownership_rule(c: CollectionItemView) -> CollectionItemView {
    if c.is_owned {
        CollectionItemView { is_wishlisted: false, ..c }
    } else {
        c
    }
}

/// `value` when the patch sets a field, the current `field` when it keeps it.
pub open spec fn patched_field<T>(field: T, value: Option<T>) -> T {
    match value {
        Some(v) => v,
        None => field,
    }
}

/// A collection record after a patch: each field the patch sets takes the patch's
/// value, every other field keeps its value, and the ownership rule is applied last.
pub open spec fn patched_collection(
    c: CollectionItemView,
    p: CollectionItemPatch,
) -> CollectionItemView {
    with_ownership_rule(
        CollectionItemView {
            is_owned: patched_field(c.is_owned, p.is_owned),
            is_read: patched_field(c.is_read, p.is_read),
            is_wishlisted: patched_field(c.is_wishlisted, p.is_wishlisted),
            purchase_price_amount: patched_field(c.purchase_price_amount, p.purchase_price_amount),
            purchase_price_currency: patched_field(
                c.purchase_price_currency,
                p.purchase_price_currency,
            ),
            acquired_on: patched_field(c.acquired_on, p.acquired_on),
            condition: patched_field(c.condition, p.condition),
            storage_location: patched_field(c.storage_location, p.storage_location),
            notes: patched_field(c.notes, p.notes),
        },
    )
}

/// Takes an owned volume off the wishlist.
pub fn enforce_ownership_rule(collection: CollectionItemView) -> (r: CollectionItemView)
    ensures
        r == with_ownership_rule(collection),
{
    let mut collection = collection;
    if collection.is_owned {
        collection.is_wishlisted = false;
    }
    collection
}

/// Applies a patch to a collection record (see `patched_collection`).
pub fn apply_collection_patch(
    collection: CollectionItemView,
    patch: CollectionItemPatch,
) -> (r: CollectionItemView)
    ensures
        r == patched_collection(collection, patch),
{
    let mut collection = collection;
    if let Some(value) = patch.is_owned {
        collection.is_owned = value;
    }
    if let Some(value) = patch.is_read {
        collection.is_read = value;
    }
    if let Some(value) = patch.is_wishlisted {
        collection.is_wishlisted = value;
    }
    if let Some(value) = patch.purchase_price_amount {
        collection.purchase_price_amount = value;
    }
    if let Some(value) = patch.purchase_price_currency {
        collection.purchase_price_currency = value;
    }
    if let Some(value) = patch.acquired_on {
        collection.acquired_on = value;
    }
    if let Some(value) = patch.condition {
        collection.condition = value;
    }
    if let Some(value) = patch.storage_location {
        collection.storage_location = value;
    }
    if let Some(value) = patch.notes {
        collection.notes = value;
    }
    enforce_ownership_rule(collection)
}

/// The integer that stands for a flag in the database: 1 for true, 0 for false.
pub fn bool_integer(value: bool) -> (r: i64)
    ensures
        r == (if value {
            1i64
        } else {
            0i64
        }),
{
    if value {
        1
    } else {
        0
    }
}

/// Whatever a record and a patch hold, the patched record is never both owned and
/// on the wishlist.
pub proof fn patched_owned_volume_is_not_wishlisted(c: CollectionItemView, p: CollectionItemPatch)
    ensures
        patched_collection(c, p).is_owned ==> !patched_collection(c, p).is_wishlisted,
{
}

/// Applying the same patch twice gives what applying it once gives.
pub proof fn patch_is_idempotent(c: CollectionItemView, p: CollectionItemPatch)
    ensures
        patched_collection(patched_collection(c, p), p) == patched_collection(c, p),
{
}

/// A patch that sets nothing only applies the ownership rule; on a record that
/// already keeps the rule it changes nothing.
pub proof fn empty_patch_keeps_a_consistent_record(c: CollectionItemView, p: CollectionItemPatch)
    requires
        p.is_owned is None,
        p.is_read is None,
        p.is_wishlisted is None,
        p.purchase_price_amount is None,
        p.purchase_price_currency is None,
        p.acquired_on is None,
        p.condition is None,
        p.storage_location is None,
        p.notes is None,
    ensures
        patched_collection(c, p) == with_ownership_rule(c),
        (c.is_owned ==> !c.is_wishlisted) ==> patched_collection(c, p) == c,
{
}

/// A patch that does not touch the wishlist never puts a volume on it, also when it
/// gives the volume up; the read flag follows the patch alone, whatever happens to
/// ownership, and ownership is never derived from the read flag.
pub proof fn patch_never_adds_to_wishlist_on_its_own(c: CollectionItemView, p: CollectionItemPatch)
    ensures
        p.is_wishlisted is None ==> (patched_collection(c, p).is_wishlisted ==> c.is_wishlisted),
        patched_collection(c, p).is_read == patched_field(c.is_read, p.is_read),
        patched_collection(c, p).is_owned == patched_field(c.is_owned, p.is_owned),
{
}

} // verus!

verus! {

/// What a patch does to each field of a record: a field the patch sets takes the
/// patch's value and a field it leaves out keeps its value; the one exception is
/// that an owned volume comes off the wishlist.
pub proof fn patch_sets_exactly_its_fields(c: CollectionItemView, p: CollectionItemPatch)
    ensures
        ({
            let r = patched_collection(c, p);
            &&& (p.is_owned matches Some(v) ==> r.is_owned == v)
            &&& (p.is_owned is None ==> r.is_owned == c.is_owned)
            &&& (p.is_read matches Some(v) ==> r.is_read == v)
            &&& (p.is_read is None ==> r.is_read == c.is_read)
            &&& (r.is_owned ==> !r.is_wishlisted)
            &&& (!r.is_owned ==> (p.is_wishlisted matches Some(v) ==> r.is_wishlisted == v))
            &&& (!r.is_owned && p.is_wishlisted is None ==> r.is_wishlisted == c.is_wishlisted)
            &&& (p.purchase_price_amount matches Some(v) ==> r.purchase_price_amount == v)
            &&& (p.purchase_price_amount is None ==> r.purchase_price_amount
                == c.purchase_price_amount)
            &&& (p.purchase_price_currency matches Some(v) ==> r.purchase_price_currency == v)
            &&& (p.purchase_price_currency is None ==> r.purchase_price_currency
                == c.purchase_price_currency)
            &&& (p.acquired_on matches Some(v) ==> r.acquired_on == v)
            &&& (p.acquired_on is None ==> r.acquired_on == c.acquired_on)
            &&& (p.condition matches Some(v) ==> r.condition == v)
            &&& (p.condition is None ==> r.condition == c.condition)
            &&& (p.storage_location matches Some(v) ==> r.storage_location == v)
            &&& (p.storage_location is None ==> r.storage_location == c.storage_location)
            &&& (p.notes matches Some(v) ==> r.notes == v)
            &&& (p.notes is None ==> r.notes == c.notes)
        }),
{
}

} // verus!

use manga_shelf_lib::collection::{apply_collection_patch, bool_integer, enforce_ownership_rule};
use manga_shelf_lib::models::{BookCondition, CollectionItemPatch, CollectionItemView};

fn wished_volume() -> CollectionItemView {
    CollectionItemView {
        is_wishlisted: true,
        ..CollectionItemView::default()
    }
}

#[test]
fn owning_a_volume_takes_it_off_the_wishlist() {
    let updated = apply_collection_patch(
        wished_volume(),
        CollectionItemPatch {
            is_owned: Some(true),
            ..CollectionItemPatch::default()
        },
    );
    assert!(updated.is_owned);
    assert!(!updated.is_wishlisted);
    assert_eq!(updated.purchase_price_amount, None);
    assert_eq!(updated.condition, BookCondition::Unknown);
}

#[test]
fn giving_up_a_volume_does_not_wish_for_it() {
    let owned = CollectionItemView {
        is_owned: true,
        ..CollectionItemView::default()
    };
    let updated = apply_collection_patch(
        owned,
        CollectionItemPatch {
            is_owned: Some(false),
            ..CollectionItemPatch::default()
        },
    );
    assert!(!updated.is_owned);
    assert!(!updated.is_wishlisted);
}

#[test]
fn patch_sets_and_clears_optional_fields() {
    let start = CollectionItemView {
        purchase_price_amount: Some(120),
        notes: Some("首刷".to_string()),
        ..CollectionItemView::default()
    };
    let updated = apply_collection_patch(
        start,
        CollectionItemPatch {
            is_read: Some(true),
            purchase_price_amount: Some(None),
            storage_location: Some(Some("書櫃 A".to_string())),
            condition: Some(BookCondition::LikeNew),
            ..CollectionItemPatch::default()
        },
    );
    assert!(updated.is_read);
    assert_eq!(updated.purchase_price_amount, None);
    assert_eq!(updated.storage_location.as_deref(), Some("書櫃 A"));
    assert_eq!(updated.notes.as_deref(), Some("首刷"));
    assert_eq!(updated.condition, BookCondition::LikeNew);
}

#[test]
fn empty_patch_keeps_a_consistent_record() {
    let start = wished_volume();
    assert_eq!(
        apply_collection_patch(start.clone(), CollectionItemPatch::default()),
        start
    );
}

#[test]
fn applying_a_patch_twice_changes_nothing_more() {
    let patch = CollectionItemPatch {
        is_owned: Some(true),
        notes: Some(Some("再版".to_string())),
        ..CollectionItemPatch::default()
    };
    let once = apply_collection_patch(wished_volume(), patch.clone());
    let twice = apply_collection_patch(once.clone(), patch);
    assert_eq!(once, twice);
}

#[test]
fn ownership_rule_only_touches_owned_volumes() {
    let both = CollectionItemView {
        is_owned: true,
        is_wishlisted: true,
        ..CollectionItemView::default()
    };
    assert!(!enforce_ownership_rule(both).is_wishlisted);
    assert!(enforce_ownership_rule(wished_volume()).is_wishlisted);
}

#[test]
fn flags_are_stored_as_one_and_zero() {
    assert_eq!(bool_integer(true), 1);
    assert_eq!(bool_integer(false), 0);
}

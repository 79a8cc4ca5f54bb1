use shopdrop::handlers::{
    add_product, adjust_inventory, apply_delta, list_pending_products, list_products, review_product,
    update_price, ApiError,
};
use shopdrop::models::{describe_product, Adjust, NewProduct, PriceUpdate, Product, ReviewAction, ReviewStatus};
use shopdrop::store::ProductStore;

fn product(id: &str, status: ReviewStatus, inventory: u32) -> Product {
    describe_product(id, "Thing", 7, inventory, "B", "M", "New", "30-day", "ok", status)
}

fn new_product(sku: &str) -> NewProduct {
    NewProduct {
        sku: sku.to_string(),
        name: "Outlet Drone".to_string(),
        brand: Some("Skyline".to_string()),
        model: Some("D-1".to_string()),
        condition: Some("Refurbished".to_string()),
        warranty: None,
        review_notes: Some("Check rotors.".to_string()),
        price_bits: 99.5f64.to_bits(),
        inventory: 3,
    }
}

fn store_with(products: Vec<Product>) -> ProductStore {
    let mut s = ProductStore::new();
    for p in products {
        s.upsert(p);
    }
    s
}

#[test]
fn status_names() {
    assert_eq!(ReviewStatus::Draft.as_str(), "draft");
    assert_eq!(ReviewStatus::Review.as_str(), "review");
    assert_eq!(ReviewStatus::Approved.as_str(), "approved");
    assert_eq!(ReviewStatus::Rejected.as_str(), "rejected");
}

#[test]
fn only_approved_is_public() {
    assert!(ReviewStatus::Approved.is_public());
    assert!(!ReviewStatus::Draft.is_public());
    assert!(!ReviewStatus::Review.is_public());
    assert!(!ReviewStatus::Rejected.is_public());
}

#[test]
fn upsert_replaces_same_id_and_keeps_order() {
    let mut s = store_with(vec![product("a", ReviewStatus::Approved, 1), product("b", ReviewStatus::Approved, 2)]);
    s.upsert(product("a", ReviewStatus::Draft, 9));
    assert_eq!(s.len(), 2);
    let ids: Vec<String> = s.products().iter().map(|p| p.id.clone()).collect();
    assert_eq!(ids, vec!["a".to_string(), "b".to_string()]);
    assert_eq!(s.get(&"a".to_string()).unwrap().inventory, 9);
    assert_eq!(s.find(&"b".to_string()), Some(1));
    assert!(s.get(&"c".to_string()).is_none());
}

#[test]
fn adjust_adds_and_removes_stock() {
    let mut s = store_with(vec![product("a", ReviewStatus::Approved, 10)]);
    let r = adjust_inventory(&mut s, &Adjust { sku: "a".to_string(), delta: 5 }).unwrap();
    assert_eq!(r.inventory, 15);
    let r = adjust_inventory(&mut s, &Adjust { sku: "a".to_string(), delta: -7 }).unwrap();
    assert_eq!(r.inventory, 8);
    assert_eq!(s.get(&"a".to_string()).unwrap().inventory, 8);
}

#[test]
fn adjust_saturates_at_both_ends() {
    let mut s = store_with(vec![product("a", ReviewStatus::Approved, 3)]);
    let r = adjust_inventory(&mut s, &Adjust { sku: "a".to_string(), delta: -10 }).unwrap();
    assert_eq!(r.inventory, 0);
    let r = adjust_inventory(&mut s, &Adjust { sku: "a".to_string(), delta: i32::MIN }).unwrap();
    assert_eq!(r.inventory, 0);
    assert_eq!(apply_delta(u32::MAX - 1, 5), u32::MAX);
    assert_eq!(apply_delta(5, i32::MIN), 0);
    assert_eq!(apply_delta(3_000_000_000, i32::MIN), 3_000_000_000 - 2_147_483_648);
}

#[test]
fn adjust_then_undo_restores_stock() {
    let mut s = store_with(vec![product("a", ReviewStatus::Approved, 40)]);
    adjust_inventory(&mut s, &Adjust { sku: "a".to_string(), delta: 12 }).unwrap();
    adjust_inventory(&mut s, &Adjust { sku: "a".to_string(), delta: -12 }).unwrap();
    assert_eq!(s.get(&"a".to_string()).unwrap().inventory, 40);
}

#[test]
fn adjust_unknown_sku_is_not_found() {
    let mut s = store_with(vec![product("a", ReviewStatus::Approved, 3)]);
    let r = adjust_inventory(&mut s, &Adjust { sku: "zzz".to_string(), delta: 1 });
    assert_eq!(r.unwrap_err(), ApiError::NotFound);
    assert_eq!(s.get(&"a".to_string()).unwrap().inventory, 3);
    assert_eq!(s.len(), 1);
}

#[test]
fn price_update_sets_price_and_last_wins() {
    let mut s = store_with(vec![product("a", ReviewStatus::Approved, 3)]);
    let r = update_price(&mut s, &PriceUpdate { sku: "a".to_string(), price_bits: 12.5f64.to_bits() }).unwrap();
    assert_eq!(f64::from_bits(r.price_bits), 12.5);
    update_price(&mut s, &PriceUpdate { sku: "a".to_string(), price_bits: 9.75f64.to_bits() }).unwrap();
    assert_eq!(f64::from_bits(s.get(&"a".to_string()).unwrap().price_bits), 9.75);
    assert_eq!(s.get(&"a".to_string()).unwrap().inventory, 3);
    let e = update_price(&mut s, &PriceUpdate { sku: "b".to_string(), price_bits: 0 });
    assert_eq!(e.unwrap_err(), ApiError::NotFound);
}

#[test]
fn added_product_waits_for_review_and_reads_back() {
    let mut s = ProductStore::new();
    let p = add_product(&mut s, new_product("sku-9")).unwrap();
    assert_eq!(p.id, "sku-9");
    assert_eq!(p.status, ReviewStatus::Review);
    assert_eq!(p.warranty, None);
    assert_eq!(p.review_notes.as_deref(), Some("Check rotors."));
    let got = s.get(&"sku-9".to_string()).unwrap();
    assert_eq!(got.name, "Outlet Drone");
    assert_eq!(got.brand, "Skyline");
    assert_eq!(f64::from_bits(got.price_bits), 99.5);
    assert!(!got.status.is_public());
}

#[test]
fn added_product_without_metadata_reads_unknown() {
    let mut s = ProductStore::new();
    let mut n = new_product("plain");
    n.brand = None;
    n.model = None;
    n.condition = None;
    let p = add_product(&mut s, n).unwrap();
    assert_eq!(p.brand, "Unknown");
    assert_eq!(p.model, "Unknown");
    assert_eq!(p.condition, "Unknown");
    assert_eq!(p.status, ReviewStatus::Review);
    assert_eq!(s.get(&"plain".to_string()).unwrap().brand, "Unknown");
}

#[test]
fn adding_existing_sku_conflicts() {
    let mut s = store_with(vec![product("sku-9", ReviewStatus::Approved, 3)]);
    let r = add_product(&mut s, new_product("sku-9"));
    assert_eq!(r.unwrap_err(), ApiError::AlreadyExists);
    assert_eq!(s.get(&"sku-9".to_string()).unwrap().inventory, 3);
    assert_eq!(s.len(), 1);
}

#[test]
fn review_approve_and_reject() {
    let mut s = store_with(vec![product("a", ReviewStatus::Review, 3), product("b", ReviewStatus::Review, 4)]);
    let a = review_product(&mut s, &ReviewAction { sku: "a".to_string(), action: "approve".to_string(), notes: None }).unwrap();
    assert_eq!(a.status, ReviewStatus::Approved);
    assert_eq!(a.review_notes.as_deref(), Some("ok"));
    let b = review_product(
        &mut s,
        &ReviewAction { sku: "b".to_string(), action: "reject".to_string(), notes: Some("scratched".to_string()) },
    )
    .unwrap();
    assert_eq!(b.status, ReviewStatus::Rejected);
    assert_eq!(b.review_notes.as_deref(), Some("scratched"));
    assert!(s.get(&"a".to_string()).unwrap().status.is_public());
    assert!(!s.get(&"b".to_string()).unwrap().status.is_public());
}

#[test]
fn review_errors() {
    let mut s = store_with(vec![product("a", ReviewStatus::Review, 3)]);
    let e = review_product(&mut s, &ReviewAction { sku: "a".to_string(), action: "maybe".to_string(), notes: None });
    assert_eq!(e.unwrap_err(), ApiError::UnknownAction);
    assert_eq!(s.get(&"a".to_string()).unwrap().status, ReviewStatus::Review);
    let e = review_product(&mut s, &ReviewAction { sku: "x".to_string(), action: "approve".to_string(), notes: None });
    assert_eq!(e.unwrap_err(), ApiError::NotFound);
}

#[test]
fn listings_in_catalog_order() {
    let s = store_with(vec![
        product("a", ReviewStatus::Review, 1),
        product("b", ReviewStatus::Approved, 2),
        product("c", ReviewStatus::Review, 3),
        product("d", ReviewStatus::Rejected, 4),
    ]);
    let all: Vec<String> = list_products(&s).into_iter().map(|p| p.id).collect();
    assert_eq!(all, vec!["a", "b", "c", "d"]);
    let pending: Vec<String> = list_pending_products(&s).into_iter().map(|p| p.id).collect();
    assert_eq!(pending, vec!["a", "c"]);
    assert!(list_pending_products(&ProductStore::new()).is_empty());
}

#[test]
fn added_product_joins_pending_queue_and_review_removes_it() {
    let mut s = store_with(vec![product("a", ReviewStatus::Review, 1), product("b", ReviewStatus::Approved, 2)]);
    add_product(&mut s, new_product("n")).unwrap();
    let pending: Vec<String> = list_pending_products(&s).into_iter().map(|p| p.id).collect();
    assert_eq!(pending, vec!["a", "n"]);
    review_product(&mut s, &ReviewAction { sku: "n".to_string(), action: "reject".to_string(), notes: None }).unwrap();
    let pending: Vec<String> = list_pending_products(&s).into_iter().map(|p| p.id).collect();
    assert_eq!(pending, vec!["a"]);
    assert_eq!(list_products(&s).len(), 3);
}

use shopdrop::db::{product_from_row, row_of_product, products_from_rows, schema_upgrade_statements, seed_if_empty, status_from_text, ProductRow};
use shopdrop::models::{describe_product, ReviewStatus};
use shopdrop::store::ProductStore;

fn row(id: &str, inventory: u32) -> ProductRow {
    ProductRow {
        id: id.to_string(),
        name: "Lamp".to_string(),
        price_bits: 5.0f64.to_bits(),
        inventory,
        brand: None,
        model: Some("L-2".to_string()),
        condition: None,
        warranty: None,
        review_notes: Some("fine".to_string()),
        status: None,
    }
}

#[test]
fn status_text_reads_back() {
    for s in [ReviewStatus::Draft, ReviewStatus::Review, ReviewStatus::Approved, ReviewStatus::Rejected] {
        assert_eq!(status_from_text(&Some(s.as_str().to_string())), s);
    }
}

#[test]
fn unknown_or_missing_status_counts_as_approved() {
    assert_eq!(status_from_text(&None), ReviewStatus::Approved);
    assert_eq!(status_from_text(&Some("archived".to_string())), ReviewStatus::Approved);
    assert_eq!(status_from_text(&Some("Draft".to_string())), ReviewStatus::Approved);
}

#[test]
fn old_rows_get_unknown_metadata() {
    let p = product_from_row(&row("sku-1", 4));
    assert_eq!(p.id, "sku-1");
    assert_eq!(p.brand, "Unknown");
    assert_eq!(p.model, "L-2");
    assert_eq!(p.condition, "Unknown");
    assert_eq!(p.warranty, None);
    assert_eq!(p.review_notes.as_deref(), Some("fine"));
    assert_eq!(p.status, ReviewStatus::Approved);
    assert_eq!(p.inventory, 4);
    assert_eq!(f64::from_bits(p.price_bits), 5.0);
}

#[test]
fn later_rows_win() {
    let rows = vec![row("a", 1), row("b", 2), row("a", 3)];
    let s = products_from_rows(&rows);
    assert_eq!(s.len(), 2);
    assert_eq!(s.get(&"a".to_string()).unwrap().inventory, 3);
    assert_eq!(s.get(&"b".to_string()).unwrap().inventory, 2);
}

#[test]
fn fresh_table_needs_every_column() {
    let stmts = schema_upgrade_statements(&vec!["sku".to_string(), "id".to_string()]);
    assert_eq!(
        stmts,
        vec![
            "ALTER TABLE products ADD COLUMN brand TEXT",
            "ALTER TABLE products ADD COLUMN model TEXT",
            "ALTER TABLE products ADD COLUMN condition TEXT",
            "ALTER TABLE products ADD COLUMN warranty TEXT",
            "ALTER TABLE products ADD COLUMN review_notes TEXT",
            "ALTER TABLE products ADD COLUMN status TEXT",
        ]
    );
}

#[test]
fn partial_table_needs_missing_columns_only() {
    let existing: Vec<String> = ["sku", "id", "name", "brand", "warranty", "status"].iter().map(|s| s.to_string()).collect();
    let stmts = schema_upgrade_statements(&existing);
    assert_eq!(
        stmts,
        vec![
            "ALTER TABLE products ADD COLUMN model TEXT",
            "ALTER TABLE products ADD COLUMN condition TEXT",
            "ALTER TABLE products ADD COLUMN review_notes TEXT",
        ]
    );
}

#[test]
fn upgrade_is_idempotent() {
    let mut existing: Vec<String> = vec!["sku".to_string(), "model".to_string()];
    let stmts = schema_upgrade_statements(&existing);
    for s in &stmts {
        let col = s.trim_start_matches("ALTER TABLE products ADD COLUMN ").trim_end_matches(" TEXT");
        existing.push(col.to_string());
    }
    assert!(schema_upgrade_statements(&existing).is_empty());
}

#[test]
fn seeding_fills_only_an_empty_catalog() {
    let mut s = ProductStore::new();
    let seeded = seed_if_empty(&mut s);
    assert_eq!(seeded.len(), 2);
    assert_eq!(seeded[0].id, "sku-101");
    assert_eq!(seeded[0].name, "Outlet Wireless Headphones");
    assert_eq!(f64::from_bits(seeded[0].price_bits), 79.99);
    assert_eq!(seeded[0].inventory, 18);
    assert_eq!(seeded[1].id, "sku-202");
    assert_eq!(f64::from_bits(seeded[1].price_bits), 34.99);
    assert_eq!(seeded[1].warranty.as_deref(), Some("60-day"));
    assert_eq!(seeded[1].status, ReviewStatus::Approved);
    assert_eq!(s.len(), 2);

    let mut t = ProductStore::new();
    t.upsert(describe_product("x", "X", 0, 1, "B", "M", "C", "W", "N", ReviewStatus::Draft));
    assert!(seed_if_empty(&mut t).is_empty());
    assert_eq!(t.len(), 1);
}

#[test]
fn stored_product_reads_back() {
    for status in [ReviewStatus::Draft, ReviewStatus::Review, ReviewStatus::Approved, ReviewStatus::Rejected] {
        let p = describe_product("sku-7", "Kettle", 19.5f64.to_bits(), 4, "Boil", "K-1", "Open-box", "30-day", "dent", status);
        let row = row_of_product(&p);
        assert_eq!(row.status.as_deref(), Some(status.as_str()));
        assert_eq!(row.brand.as_deref(), Some("Boil"));
        let q = product_from_row(&row);
        assert_eq!(q.id, p.id);
        assert_eq!(q.name, p.name);
        assert_eq!(q.price_bits, p.price_bits);
        assert_eq!(q.inventory, p.inventory);
        assert_eq!(q.brand, p.brand);
        assert_eq!(q.model, p.model);
        assert_eq!(q.condition, p.condition);
        assert_eq!(q.warranty, p.warranty);
        assert_eq!(q.review_notes, p.review_notes);
        assert_eq!(q.status, p.status);
    }
}

//! What the shop stores: the columns that the products table must have, how
//! a stored row becomes a product, and how the catalog is rebuilt from rows.
//! Reading and writing the database itself is the caller's part.

use vstd::prelude::*;
use crate::models::{copy_opt_text, text_or_unknown, text_or_unknown_of, describe_product, described_by, status_text, Product, ProductText, ReviewStatus};
use crate::store::{has_id, ProductStore};

verus! {

/// The status that a stored status text stands for. Rows written before the
/// review workflow existed, and unreadable texts, count as approved.
pub open spec fn status_of_text(text: Option<Seq<char>>) -> ReviewStatus {
    match text {
        Some(t) => if t == "draft"@ {
            ReviewStatus::Draft
        } else if t == "review"@ {
            ReviewStatus::Review
        } else if t == "approved"@ {
            ReviewStatus::Approved
        } else if t == "rejected"@ {
            ReviewStatus::Rejected
        } else {
            ReviewStatus::Approved
        },
        None => ReviewStatus::Approved,
    }
}

/// Reads a stored status text.
pub fn status_from_text(text: &Option<String>) -> (r: ReviewStatus)
    ensures
        r == status_of_text(text.deep_view()),
{
    match text {
        Some(t) => {
            if *t == String::from_str("draft") {
                ReviewStatus::Draft
            } else if *t == String::from_str("review") {
                ReviewStatus::Review
            } else if *t == String::from_str("approved") {
                ReviewStatus::Approved
            } else if *t == String::from_str("rejected") {
                ReviewStatus::Rejected
            } else {
                ReviewStatus::Approved
            }
        },
        None => ReviewStatus::Approved,
    }
}

/// A status written with `as_str` reads back as the same status.
pub proof fn lemma_status_text_round_trip(s: ReviewStatus)
    ensures
        status_of_text(Some(status_text(s))) == s,
{
    reveal_strlit("draft");
    reveal_strlit("review");
    reveal_strlit("approved");
    reveal_strlit("rejected");
    match s {
        ReviewStatus::Draft => {},
        ReviewStatus::Review => {
            assert("review"@[0] != "draft"@[0]);
        },
        ReviewStatus::Approved => {
            assert("approved"@[0] != "draft"@[0]);
            assert("approved"@[0] != "review"@[0]);
        },
        ReviewStatus::Rejected => {
            assert("rejected"@[0] != "draft"@[0]);
            assert("rejected"@[2] != "review"@[2]);
            assert("rejected"@[0] != "approved"@[0]);
        },
    }
}


/// One row of the products table, as read: the columns that older versions
/// of the table lack are `None`.
pub struct ProductRow {
    pub id: String,
    pub name: String,
    pub price_bits: u64,
    pub inventory: u32,
    pub brand: Option<String>,
    pub model: Option<String>,
    pub condition: Option<String>,
    pub warranty: Option<String>,
    pub review_notes: Option<String>,
    pub status: Option<String>,
}

/// `p` is the product that `row` stores.
pub open spec fn row_product(p: Product, row: ProductRow) -> bool {
    &&& p.id == row.id
    &&& p.name == row.name
    &&& p.price_bits == row.price_bits
    &&& p.inventory == row.inventory
    &&& p.brand@ == text_or_unknown(row.brand.deep_view())
    &&& p.model@ == text_or_unknown(row.model.deep_view())
    &&& p.condition@ == text_or_unknown(row.condition.deep_view())
    &&& p.warranty == row.warranty
    &&& p.review_notes == row.review_notes
    &&& p.status == status_of_text(row.status.deep_view())
}


/// The product that a stored row describes.
pub fn product_from_row(row: &ProductRow) -> (p: Product)
    ensures
        row_product(p, *row),
{
    Product {
        id: row.id.clone(),
        name: row.name.clone(),
        price_bits: row.price_bits,
        inventory: row.inventory,
        brand: text_or_unknown_of(&row.brand),
        model: text_or_unknown_of(&row.model),
        condition: text_or_unknown_of(&row.condition),
        warranty: copy_opt_text(&row.warranty),
        review_notes: copy_opt_text(&row.review_notes),
        status: status_from_text(&row.status),
    }
}

/// `row` is what the products table stores for `p`: every text column set,
/// the status written with `as_str`.
pub open spec fn stores_product(row: ProductRow, p: Product) -> bool {
    &&& row.id == p.id
    &&& row.name == p.name
    &&& row.price_bits == p.price_bits
    &&& row.inventory == p.inventory
    &&& row.brand == Some(p.brand)
    &&& row.model == Some(p.model)
    &&& row.condition == Some(p.condition)
    &&& row.warranty == p.warranty
    &&& row.review_notes == p.review_notes
    &&& row.status is Some
    &&& row.status.unwrap()@ == status_text(p.status)
}

/// The row that the products table stores for a product.
pub fn row_of_product(p: &Product) -> (row: ProductRow)
    ensures
        stores_product(row, *p),
{
    ProductRow {
        id: p.id.clone(),
        name: p.name.clone(),
        price_bits: p.price_bits,
        inventory: p.inventory,
        brand: Some(p.brand.clone()),
        model: Some(p.model.clone()),
        condition: Some(p.condition.clone()),
        warranty: copy_opt_text(&p.warranty),
        review_notes: copy_opt_text(&p.review_notes),
        status: Some(String::from_str(p.status.as_str())),
    }
}

/// A product written to the table and read back is the product written:
/// every field is the same (texts by their contents).
pub proof fn law_stored_product_reads_back(p: Product, row: ProductRow, q: Product)
    requires
        stores_product(row, p),
        row_product(q, row),
    ensures
        q.id == p.id,
        q.name == p.name,
        q.price_bits == p.price_bits,
        q.inventory == p.inventory,
        q.brand@ == p.brand@,
        q.model@ == p.model@,
        q.condition@ == p.condition@,
        q.warranty == p.warranty,
        q.review_notes == p.review_notes,
        q.status == p.status,
{
    lemma_status_text_round_trip(p.status);
}

/// Row `j` is the last of `rows` with its id.
pub open spec fn last_with_its_id(rows: Seq<ProductRow>, j: int) -> bool {
    &&& 0 <= j < rows.len()
    &&& forall|l: int| j < l < rows.len() ==> #[trigger] rows[l].id@ != rows[j].id@
}

/// The catalog that the stored rows describe: one product per id, and where
/// ids repeat, the last row with the id wins.
pub fn products_from_rows(rows: &Vec<ProductRow>) -> (store: ProductStore)
    ensures
        forall|k: Seq<char>|
            #[trigger] store@.contains_key(k) <==> exists|j: int|
                0 <= j < rows@.len() && #[trigger] rows@[j].id@ == k,
        forall|j: int|
            #[trigger] last_with_its_id(rows@, j) ==> row_product(store@[rows@[j].id@], rows@[j]),
{
    let mut store = ProductStore::new();
    let mut i: usize = 0;
    while i < rows.len()
        invariant
            i <= rows@.len(),
            forall|k: Seq<char>|
                #[trigger] store@.contains_key(k) <==> exists|j: int|
                    0 <= j < i && #[trigger] rows@[j].id@ == k,
            forall|j: int|
                #[trigger] last_with_its_id(rows@.take(i as int), j) ==> row_product(
                    store@[rows@[j].id@],
                    rows@[j],
                ),
        decreases rows@.len() - i,
    {
        let p = product_from_row(&rows[i]);
        let ghost before = store@;
        store.upsert(p);
        proof {
            let pre = rows@.take(i as int);
            let post = rows@.take(i as int + 1);
            assert forall|k: Seq<char>|
                #[trigger] store@.contains_key(k) <==> exists|j: int|
                    0 <= j < i + 1 && #[trigger] rows@[j].id@ == k by {
                if k == rows@[i as int].id@ {
                    assert(rows@[i as int].id@ == k);
                } else if before.contains_key(k) {
                    let j: int = choose|j: int| 0 <= j < i && #[trigger] rows@[j].id@ == k;
                    assert(rows@[j].id@ == k);
                } else {
                    assert forall|j: int| 0 <= j < i + 1 implies #[trigger] rows@[j].id@ != k by {
                        if j < i {
                            assert(!(0 <= j < i && rows@[j].id@ == k));
                        }
                    }
                }
            }
            assert forall|j: int| #[trigger] last_with_its_id(post, j) implies row_product(
                store@[rows@[j].id@],
                rows@[j],
            ) by {
                assert(post[j] == rows@[j]);
                if j < i {
                    assert(post[i as int] == rows@[i as int]);
                    assert(rows@[i as int].id@ != rows@[j].id@);
                    assert forall|l: int| j < l < pre.len() implies #[trigger] pre[l].id@ != pre[j].id@ by {
                        assert(post[l] == pre[l]);
                    }
                    assert(last_with_its_id(pre, j));
                }
            }
        }
        i = i + 1;
    }
    assert(rows@.take(rows@.len() as int) =~= rows@);
    store
}


/// The columns, with their SQL types, that the products table needs beyond
/// the ones it was first created with.
pub open spec fn required_columns() -> Seq<(Seq<char>, Seq<char>)> {
    seq![
        ("brand"@, "TEXT"@),
        ("model"@, "TEXT"@),
        ("condition"@, "TEXT"@),
        ("warranty"@, "TEXT"@),
        ("review_notes"@, "TEXT"@),
        ("status"@, "TEXT"@),
    ]
}

/// The SQL statement that adds a column of the given type to the products table.
pub open spec fn add_column_statement(column: Seq<char>, ty: Seq<char>) -> Seq<char> {
    "ALTER TABLE products ADD COLUMN "@ + column + " "@ + ty
}

/// One `ALTER TABLE` statement for each of `columns` that `existing` lacks, in order.
pub open spec fn upgrade_statements(
    columns: Seq<(Seq<char>, Seq<char>)>,
    existing: Seq<Seq<char>>,
) -> Seq<Seq<char>>
    decreases columns.len(),
{
    if columns.len() == 0 {
        seq![]
    } else {
        let rest = upgrade_statements(columns.drop_last(), existing);
        let c = columns.last();
        if existing.contains(c.0) {
            rest
        } else {
            rest.push(add_column_statement(c.0, c.1))
        }
    }
}

/// Whether `existing` holds a column named `column`.
fn has_column(existing: &Vec<String>, column: &str) -> (b: bool)
    ensures
        b == existing.deep_view().contains(column@),
{
    let wanted = String::from_str(column);
    let mut j: usize = 0;
    while j < existing.len()
        invariant
            j <= existing@.len(),
            wanted@ == column@,
            forall|l: int| 0 <= l < j ==> #[trigger] existing.deep_view()[l] != column@,
        decreases existing@.len() - j,
    {
        if existing[j] == wanted {
            assert(existing.deep_view()[j as int] == column@);
            return true;
        }
        j = j + 1;
    }
    false
}

/// The statements that bring an older products table, whose columns are
/// `existing`, up to the current layout: one per missing column.
pub fn schema_upgrade_statements(existing: &Vec<String>) -> (r: Vec<String>)
    ensures
        r.deep_view() == upgrade_statements(required_columns(), existing.deep_view()),
{
    let columns: Vec<(&str, &str)> = vec![
        ("brand", "TEXT"),
        ("model", "TEXT"),
        ("condition", "TEXT"),
        ("warranty", "TEXT"),
        ("review_notes", "TEXT"),
        ("status", "TEXT"),
    ];
    let ghost req = required_columns();
    assert(columns@.len() == req.len());
    assert forall|l: int| 0 <= l < req.len() implies (#[trigger] columns@[l].0@, columns@[l].1@) == req[l] by {}
    let mut out: Vec<String> = Vec::new();
    let mut i: usize = 0;
    while i < columns.len()
        invariant
            i <= columns@.len(),
            columns@.len() == req.len(),
            req == required_columns(),
            forall|l: int| 0 <= l < req.len() ==> (#[trigger] columns@[l].0@, columns@[l].1@) == req[l],
            out.deep_view() == upgrade_statements(req.take(i as int), existing.deep_view()),
        decreases columns@.len() - i,
    {
        let (name, ty) = columns[i];
        assert(req.take(i as int + 1).drop_last() =~= req.take(i as int));
        assert(req.take(i as int + 1).last() == req[i as int]);
        if !has_column(existing, name) {
            let stmt = String::from_str("ALTER TABLE products ADD COLUMN ").concat(name).concat(" ").concat(ty);
            let ghost before = out.deep_view();
            out.push(stmt);
            assert(out.deep_view() =~= before.push(stmt@));
        }
        i = i + 1;
    }
    assert(req.take(req.len() as int) =~= req);
    out
}

/// A table that already has every column of `columns` needs no statement.
pub proof fn lemma_complete_schema_needs_nothing(
    columns: Seq<(Seq<char>, Seq<char>)>,
    existing: Seq<Seq<char>>,
)
    requires
        forall|l: int| 0 <= l < columns.len() ==> existing.contains(#[trigger] columns[l].0),
    ensures
        upgrade_statements(columns, existing) == Seq::<Seq<char>>::empty(),
    decreases columns.len(),
{
    if columns.len() > 0 {
        let init = columns.drop_last();
        assert forall|l: int| 0 <= l < init.len() implies existing.contains(#[trigger] init[l].0) by {
            assert(init[l] == columns[l]);
        }
        lemma_complete_schema_needs_nothing(init, existing);
        assert(existing.contains(columns[columns.len() - 1].0));
    }
}


/// The two approved products that a fresh database starts with, so that the
/// dashboard has content on its first launch.
pub open spec fn starter_product(p: Product, i: int) -> bool {
    if i == 0 {
        described_by(
            p,
            ProductText {
                id: "sku-101"@,
                name: "Outlet Wireless Headphones"@,
                brand: "Volt"@,
                model: "VX-300"@,
                condition: "Refurbished"@,
                warranty: "90-day"@,
                notes: "Inspected, cleaned, ready to ship."@,
            },
            0x4053ff5c28f5c28f,
            18,
            ReviewStatus::Approved,
        )
    } else {
        described_by(
            p,
            ProductText {
                id: "sku-202"@,
                name: "Outlet Gaming Mouse"@,
                brand: "Orbit"@,
                model: "Turbo-X"@,
                condition: "Open-box"@,
                warranty: "60-day"@,
                notes: "Tested and working. Minor box wear."@,
            },
            0x40417eb851eb851f,
            9,
            ReviewStatus::Approved,
        )
    }
}

/// Fills an empty catalog with the starter products and answers them (to be
/// persisted); a catalog that holds anything is left as it is and nothing is
/// answered.
pub fn seed_if_empty(store: &mut ProductStore) -> (seeded: Vec<Product>)
    ensures
        old(store).items().len() == 0 ==> {
            &&& seeded@.len() == 2
            &&& starter_product(seeded@[0], 0)
            &&& starter_product(seeded@[1], 1)
            &&& final(store).items() == seeded@
        },
        old(store).items().len() > 0 ==> {
            &&& seeded@.len() == 0
            &&& *final(store) == *old(store)
        },
{
    let mut seeded: Vec<Product> = Vec::new();
    if store.len() > 0 {
        return seeded;
    }
    let first = describe_product(
        "sku-101",
        "Outlet Wireless Headphones",
        0x4053ff5c28f5c28f,
        18,
        "Volt",
        "VX-300",
        "Refurbished",
        "90-day",
        "Inspected, cleaned, ready to ship.",
        ReviewStatus::Approved,
    );
    let second = describe_product(
        "sku-202",
        "Outlet Gaming Mouse",
        0x40417eb851eb851f,
        9,
        "Orbit",
        "Turbo-X",
        "Open-box",
        "60-day",
        "Tested and working. Minor box wear.",
        ReviewStatus::Approved,
    );
    proof {
        reveal_strlit("sku-101");
        reveal_strlit("sku-202");
        assert(first.id@[4] != second.id@[4]);
    }
    store.upsert(first.clone());
    assert(!has_id(store.items(), second.id@));
    store.upsert(second.clone());
    seeded.push(first);
    seeded.push(second);
    seeded
}

} // verus!

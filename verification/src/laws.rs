//! Properties of the shop that span its operations, proved over the spec
//! functions that the operations' contracts use.

use vstd::prelude::*;
use crate::db::{add_column_statement, required_columns, upgrade_statements, lemma_complete_schema_needs_nothing};
use crate::handlers::{adjusted_inventory, is_listing_of, is_pending, pending_of, review_outcome, reviewed, with_price};
use crate::models::{NewProduct, Product, ReviewStatus};
use crate::simulation::{decimal, digit_char, decimal_value_of, sku_text, fluctuated_catalog, is_public_product};
use crate::store::{has_id, ids_unique, index_of_id, upserted};
use crate::handlers::with_inventory;
use crate::db::{row_product, starter_product, status_of_text, stores_product, ProductRow};
use crate::models::status_text;
use crate::simulation::{
    fluctuated_stock, has_pending_named, public_of, template_listing, TEMPLATE_COUNT,
};

verus! {

/// What a write puts under a SKU is what a read of that SKU gives back, and
/// the other SKUs read as before (every change of the catalog is such an
/// insert: see the contracts in `handlers` and `store`).
pub proof fn law_read_after_write(
    catalog: Map<Seq<char>, Product>,
    sku: Seq<char>,
    p: Product,
    other: Seq<char>,
)
    requires
        other != sku,
    ensures
        catalog.insert(sku, p).contains_key(sku),
        catalog.insert(sku, p)[sku] == p,
        catalog.insert(sku, p).contains_key(other) == catalog.contains_key(other),
        catalog.contains_key(other) ==> catalog.insert(sku, p)[other] == catalog[other],
{
}

/// Adjusting the stock by `delta` and then by `-delta` gives the old stock
/// back, as long as the first adjustment did not hit zero or `u32::MAX`.
pub proof fn law_adjust_then_undo(inventory: u32, delta: i32)
    requires
        delta > i32::MIN,
        0 <= inventory + delta <= u32::MAX,
    ensures
        adjusted_inventory(adjusted_inventory(inventory, delta), (-delta) as i32) == inventory,
{
}

/// An adjustment that would take the stock below zero leaves none, and one
/// that would take it past `u32::MAX` leaves `u32::MAX`.
pub proof fn law_adjust_saturates(inventory: u32, delta: i32)
    ensures
        inventory + delta < 0 ==> adjusted_inventory(inventory, delta) == 0,
        inventory + delta > u32::MAX ==> adjusted_inventory(inventory, delta) == u32::MAX,
        0 <= inventory + delta <= u32::MAX ==> adjusted_inventory(inventory, delta) == inventory + delta,
{
}

/// Of two price updates, the later one wins.
pub proof fn law_last_price_wins(p: Product, first: u64, second: u64)
    ensures
        with_price(with_price(p, first), second) == with_price(p, second),
{
}

/// A newly added product is not on sale: it waits for review.
pub proof fn law_new_listing_waits_for_review(p: Product, n: NewProduct)
    requires
        is_listing_of(p, n),
    ensures
        p.status == ReviewStatus::Review,
        !p.status.is_public(),
        p.id == n.sku,
{
}

/// Approving a product puts it on sale; rejecting it takes it off sale.
pub proof fn law_review_decides_publicity(p: Product, action: Seq<char>, notes: Option<String>)
    requires
        review_outcome(action) is Some,
    ensures
        reviewed(p, review_outcome(action).unwrap(), notes).status.is_public() <==> action == "approve"@,
{
    reveal_strlit("approve");
    reveal_strlit("reject");
    if action == "reject"@ {
        assert(action[0] != "approve"@[0]);
    }
}

/// The columns, with their types, that the upgrade adds to a table whose
/// columns are `existing`.
pub open spec fn added_columns(
    columns: Seq<(Seq<char>, Seq<char>)>,
    existing: Seq<Seq<char>>,
) -> Seq<(Seq<char>, Seq<char>)>
    decreases columns.len(),
{
    if columns.len() == 0 {
        seq![]
    } else {
        let rest = added_columns(columns.drop_last(), existing);
        let c = columns.last();
        if existing.contains(c.0) {
            rest
        } else {
            rest.push(c)
        }
    }
}

/// The names of some columns.
pub open spec fn column_names(columns: Seq<(Seq<char>, Seq<char>)>) -> Seq<Seq<char>> {
    columns.map_values(|c: (Seq<char>, Seq<char>)| c.0)
}

/// Each upgrade statement adds one of the missing columns, in order.
pub proof fn law_upgrade_adds_missing_columns(
    columns: Seq<(Seq<char>, Seq<char>)>,
    existing: Seq<Seq<char>>,
)
    ensures
        upgrade_statements(columns, existing) == added_columns(columns, existing).map_values(
            |c: (Seq<char>, Seq<char>)| add_column_statement(c.0, c.1),
        ),
    decreases columns.len(),
{
    if columns.len() > 0 {
        law_upgrade_adds_missing_columns(columns.drop_last(), existing);
        let rest = added_columns(columns.drop_last(), existing);
        let f = |c: (Seq<char>, Seq<char>)| add_column_statement(c.0, c.1);
        assert(rest.push(columns.last()).map_values(f) =~= rest.map_values(f).push(f(columns.last())));
    }
}

proof fn lemma_added_columns_cover(columns: Seq<(Seq<char>, Seq<char>)>, existing: Seq<Seq<char>>, l: int)
    requires
        0 <= l < columns.len(),
    ensures
        existing.contains(columns[l].0) || column_names(added_columns(columns, existing)).contains(columns[l].0),
    decreases columns.len(),
{
    let init = columns.drop_last();
    let c = columns.last();
    let rest = added_columns(init, existing);
    if l < columns.len() - 1 {
        assert(init[l] == columns[l]);
        lemma_added_columns_cover(init, existing, l);
        if !existing.contains(columns[l].0) {
            let names = column_names(rest);
            let j: int = choose|j: int| 0 <= j < names.len() && names[j] == columns[l].0;
            if !existing.contains(c.0) {
                assert(column_names(rest.push(c))[j] == columns[l].0);
            }
        }
    } else if !existing.contains(c.0) {
        assert(column_names(rest.push(c))[rest.len() as int] == c.0);
    }
}

/// Upgrading the schema is idempotent: once the statements have added their
/// columns, a second upgrade has nothing left to do.
pub proof fn law_schema_upgrade_idempotent(existing: Seq<Seq<char>>)
    ensures
        upgrade_statements(
            required_columns(),
            existing + column_names(added_columns(required_columns(), existing)),
        ) == Seq::<Seq<char>>::empty(),
{
    let cols = required_columns();
    let a = column_names(added_columns(cols, existing));
    let after = existing + a;
    assert forall|l: int| 0 <= l < cols.len() implies after.contains(#[trigger] cols[l].0) by {
        lemma_added_columns_cover(cols, existing, l);
        if existing.contains(cols[l].0) {
            let j: int = choose|j: int| 0 <= j < existing.len() && existing[j] == cols[l].0;
            assert(after[j] == cols[l].0);
        } else {
            let j: int = choose|j: int| 0 <= j < a.len() && a[j] == cols[l].0;
            assert(after[existing.len() + j] == cols[l].0);
        }
    }
    lemma_complete_schema_needs_nothing(cols, after);
}

proof fn lemma_decimal_shape(n: nat)
    ensures
        decimal(n).len() >= 1,
        n < 10 <==> decimal(n).len() == 1,
        decimal(n).last() == digit_char((n % 10) as int),
        n >= 10 ==> decimal(n).drop_last() == decimal(n / 10),
    decreases n,
{
    if n >= 10 {
        lemma_decimal_shape(n / 10);
        assert(decimal(n).drop_last() =~= decimal(n / 10));
    }
}

/// Different numbers are written differently.
pub proof fn law_decimal_injective(a: nat, b: nat)
    requires
        decimal(a) == decimal(b),
    ensures
        a == b,
    decreases a,
{
    lemma_decimal_shape(a);
    lemma_decimal_shape(b);
    if a >= 10 && b >= 10 {
        law_decimal_injective(a / 10, b / 10);
    }
}

/// The simulation's listings carry different SKUs for different numbers, so
/// the SKUs it hands out one after another never repeat.
pub proof fn law_listing_skus_distinct(a: nat, b: nat)
    requires
        a != b,
    ensures
        sku_text(a) != sku_text(b),
{
    reveal_strlit("sku-");
    if sku_text(a) == sku_text(b) {
        assert(decimal(a) =~= sku_text(a).skip(4));
        assert(decimal(b) =~= sku_text(b).skip(4));
        law_decimal_injective(a, b);
    }
}


/// A product added to the catalog joins the end of the review queue.
pub proof fn law_added_product_is_pending(items: Seq<Product>, p: Product, n: NewProduct)
    requires
        is_listing_of(p, n),
    ensures
        pending_of(items.push(p)) == pending_of(items).push(p),
{
    let t = items.push(p);
    assert(t.drop_last() =~= items);
    assert(is_pending(t.last()));
    reveal(Seq::filter);
}

/// A product that a review decided no longer waits for review.
pub proof fn law_reviewed_product_leaves_queue(p: Product, action: Seq<char>, notes: Option<String>)
    requires
        review_outcome(action) is Some,
    ensures
        !is_pending(reviewed(p, review_outcome(action).unwrap(), notes)),
{
}

/// Simulated fluctuations neither add nor remove products: the same SKUs are in the
/// catalog before and after.
pub proof fn law_fluctuations_keep_skus(before: Seq<Product>, after: Seq<Product>, sku: Seq<char>)
    requires
        fluctuated_catalog(before, after),
    ensures
        has_id(after, sku) <==> has_id(before, sku),
{
    if has_id(after, sku) {
        let i: int = choose|i: int| 0 <= i < after.len() && #[trigger] after[i].id@ == sku;
        assert(before[i].id@ == sku);
    }
    if has_id(before, sku) {
        let i: int = choose|i: int| 0 <= i < before.len() && #[trigger] before[i].id@ == sku;
        assert(after[i].id@ == sku);
    }
}


/// A tick that lists `p` leaves every other product where it was: a
/// product not on sale keeps every field, and a product on sale changes only
/// in its stock, by at most two down or three up.
pub proof fn law_tick_spares_other_products(s: Seq<Product>, p: Product, t: Seq<Product>, i: int)
    requires
        ids_unique(s),
        fluctuated_catalog(upserted(s, p), t),
        0 <= i < s.len(),
        s[i].id@ != p.id@,
    ensures
        i < t.len(),
        !is_public_product(s[i]) ==> t[i] == s[i],
        is_public_product(s[i]) ==> {
            &&& t[i] == with_inventory(s[i], t[i].inventory)
            &&& t[i].inventory <= s[i].inventory + 3
            &&& s[i].inventory <= t[i].inventory + 2
        },
{
    let u = upserted(s, p);
    if has_id(s, p.id@) {
        let j = index_of_id(s, p.id@);
        assert(s[j].id@ == p.id@);
        assert(j != i);
        assert(u[i] == s[i]);
    } else {
        assert(u[i] == s[i]);
    }
}

/// No tick removes a SKU from the catalog.
pub proof fn law_tick_keeps_skus(s: Seq<Product>, p: Product, t: Seq<Product>, sku: Seq<char>)
    requires
        fluctuated_catalog(upserted(s, p), t),
        has_id(s, sku),
    ensures
        has_id(t, sku),
{
    let u = upserted(s, p);
    let i: int = choose|i: int| 0 <= i < s.len() && #[trigger] s[i].id@ == sku;
    if has_id(s, p.id@) {
        let j = index_of_id(s, p.id@);
        assert(s[j].id@ == p.id@);
        if i == j {
            assert(u[j].id@ == sku);
        } else {
            assert(u[i].id@ == sku);
        }
    } else {
        assert(u[i].id@ == sku);
    }
    assert(has_id(u, sku));
    law_fluctuations_keep_skus(u, t, sku);
}


/// A new listing carries what the request gave: the SKU as its id, the
/// name, price, stock, warranty and notes as given, "Unknown" for each of
/// brand, model and condition left out, and the review status.
pub proof fn law_listing_takes_request(p: Product, n: NewProduct)
    requires
        is_listing_of(p, n),
    ensures
        p.id == n.sku,
        p.name == n.name,
        p.price_bits == n.price_bits,
        p.inventory == n.inventory,
        n.brand matches Some(b) ==> p.brand@ == b@,
        n.brand is None ==> p.brand@ == "Unknown"@,
        n.model matches Some(m) ==> p.model@ == m@,
        n.model is None ==> p.model@ == "Unknown"@,
        n.condition matches Some(c) ==> p.condition@ == c@,
        n.condition is None ==> p.condition@ == "Unknown"@,
        p.warranty == n.warranty,
        p.review_notes == n.review_notes,
        p.status == ReviewStatus::Review,
{
}

/// A price update sets the given price, whatever the product's status, and
/// changes nothing else.
pub proof fn law_price_update_changes_only_price(p: Product, price_bits: u64)
    ensures
        with_price(p, price_bits).price_bits == price_bits,
        with_price(p, price_bits).id == p.id,
        with_price(p, price_bits).name == p.name,
        with_price(p, price_bits).inventory == p.inventory,
        with_price(p, price_bits).brand == p.brand,
        with_price(p, price_bits).model == p.model,
        with_price(p, price_bits).condition == p.condition,
        with_price(p, price_bits).warranty == p.warranty,
        with_price(p, price_bits).review_notes == p.review_notes,
        with_price(p, price_bits).status == p.status,
{
}

/// A stock change sets the given stock and changes nothing else.
pub proof fn law_stock_change_changes_only_stock(p: Product, inventory: u32)
    ensures
        with_inventory(p, inventory).inventory == inventory,
        with_inventory(p, inventory).id == p.id,
        with_inventory(p, inventory).name == p.name,
        with_inventory(p, inventory).price_bits == p.price_bits,
        with_inventory(p, inventory).brand == p.brand,
        with_inventory(p, inventory).model == p.model,
        with_inventory(p, inventory).condition == p.condition,
        with_inventory(p, inventory).warranty == p.warranty,
        with_inventory(p, inventory).review_notes == p.review_notes,
        with_inventory(p, inventory).status == p.status,
{
}

/// A review decides the status and, where notes are given, the notes;
/// everything else of the product, its stock included, stays.
pub proof fn law_review_changes_only_status_and_notes(p: Product, status: ReviewStatus, notes: Option<String>)
    ensures
        reviewed(p, status, notes).status == status,
        notes is Some ==> reviewed(p, status, notes).review_notes == notes,
        notes is None ==> reviewed(p, status, notes).review_notes == p.review_notes,
        reviewed(p, status, notes).id == p.id,
        reviewed(p, status, notes).name == p.name,
        reviewed(p, status, notes).price_bits == p.price_bits,
        reviewed(p, status, notes).inventory == p.inventory,
        reviewed(p, status, notes).brand == p.brand,
        reviewed(p, status, notes).model == p.model,
        reviewed(p, status, notes).condition == p.condition,
        reviewed(p, status, notes).warranty == p.warranty,
{
}

/// "approve" approves, "reject" rejects, and every other action is refused.
pub proof fn law_review_actions(action: Seq<char>)
    ensures
        action == "approve"@ ==> review_outcome(action) == Some(ReviewStatus::Approved),
        action == "reject"@ ==> review_outcome(action) == Some(ReviewStatus::Rejected),
        action != "approve"@ && action != "reject"@ ==> review_outcome(action) is None,
{
    reveal_strlit("approve");
    reveal_strlit("reject");
    if action == "reject"@ {
        assert(action[0] != "approve"@[0]);
    }
}

/// Only a product that still waits for review blocks its template: where
/// every product of that name is approved, rejected or a draft, the template
/// can be listed again, and any product of that name in review blocks it.
pub proof fn law_only_pending_products_block_a_template(s: Seq<Product>, name: Seq<char>, i: int)
    ensures
        (forall|j: int| 0 <= j < s.len() && #[trigger] s[j].name@ == name ==> s[j].status != ReviewStatus::Review)
            ==> !has_pending_named(s, name),
        0 <= i < s.len() && s[i].status == ReviewStatus::Review && s[i].name@ == name ==> has_pending_named(s, name),
{
    if 0 <= i < s.len() && s[i].status == ReviewStatus::Review && s[i].name@ == name {
        assert(s[i].status == ReviewStatus::Review);
    }
    if has_pending_named(s, name) {
        let j: int = choose|j: int| 0 <= j < s.len() && #[trigger] s[j].status == ReviewStatus::Review && s[j].name@ == name;
        assert(s[j].name@ == name);
    }
}

/// The review queue holds exactly the products in review: everything in it
/// is in review, every product in review is in it, and it is never longer
/// than the catalog.
pub proof fn law_pending_list_is_the_review_queue(s: Seq<Product>, i: int)
    ensures
        forall|j: int| 0 <= j < pending_of(s).len() ==> (#[trigger] pending_of(s)[j]).status == ReviewStatus::Review,
        0 <= i < s.len() && s[i].status == ReviewStatus::Review ==> pending_of(s).contains(s[i]),
        pending_of(s).len() <= s.len(),
{
    s.filter_lemma(|p: Product| is_pending(p));
}

/// The products a tick answers are exactly the approved ones.
pub proof fn law_tick_updates_are_the_products_on_sale(s: Seq<Product>, i: int)
    ensures
        forall|j: int| 0 <= j < public_of(s).len() ==> (#[trigger] public_of(s)[j]).status == ReviewStatus::Approved,
        0 <= i < s.len() && s[i].status == ReviewStatus::Approved ==> public_of(s).contains(s[i]),
        public_of(s).len() <= s.len(),
{
    s.filter_lemma(|p: Product| is_public_product(p));
}

/// The starter products are on sale from the first launch: both are
/// approved, "sku-101" with 18 units and "sku-202" with 9.
pub proof fn law_starter_products_are_on_sale(p: Product, i: int)
    requires
        0 <= i < 2,
        starter_product(p, i),
    ensures
        p.status == ReviewStatus::Approved,
        p.status.is_public(),
        i == 0 ==> p.id@ == "sku-101"@ && p.inventory == 18,
        i == 1 ==> p.id@ == "sku-202"@ && p.inventory == 9,
{
}

/// A simulated listing waits for review under the SKU it was given, with
/// the template's stock (6, 4 or 8 units) and a warranty and notes.
pub proof fn law_template_listing_waits_for_review(p: Product, i: int, sku: Seq<char>)
    requires
        0 <= i < TEMPLATE_COUNT,
        template_listing(p, i, sku),
    ensures
        p.status == ReviewStatus::Review,
        !p.status.is_public(),
        p.id@ == sku,
        i == 0 ==> p.inventory == 6,
        i == 1 ==> p.inventory == 4,
        i == 2 ==> p.inventory == 8,
        p.warranty is Some,
        p.review_notes is Some,
{
}

/// A sale of at most `amount` units and a delivery of `extra` units: without
/// either the stock stays; a sale never takes more than `amount` nor goes
/// below zero, and a delivery never adds more than `extra`.
pub proof fn law_fluctuated_stock(inventory: u32, sold: bool, amount: u32, restocked: bool, extra: u32)
    ensures
        !sold && !restocked ==> fluctuated_stock(inventory, sold, amount, restocked, extra) == inventory,
        fluctuated_stock(inventory, sold, amount, restocked, extra) <= inventory + (if restocked { extra as int } else { 0 }),
        inventory <= fluctuated_stock(inventory, sold, amount, restocked, extra) + (if sold { amount as int } else { 0 }),
        sold && !restocked && inventory >= amount ==> fluctuated_stock(inventory, sold, amount, restocked, extra) == inventory - amount,
        !sold && restocked && inventory + extra <= u32::MAX ==> fluctuated_stock(inventory, sold, amount, restocked, extra) == inventory + extra,
{
}

/// The four status names, and how stored texts read: each name reads as its
/// status; no text, or any other text, reads as approved.
pub proof fn law_status_texts(text: Seq<char>)
    ensures
        status_text(ReviewStatus::Draft) == "draft"@,
        status_text(ReviewStatus::Review) == "review"@,
        status_text(ReviewStatus::Approved) == "approved"@,
        status_text(ReviewStatus::Rejected) == "rejected"@,
        status_of_text(Some("draft"@)) == ReviewStatus::Draft,
        status_of_text(Some("review"@)) == ReviewStatus::Review,
        status_of_text(Some("approved"@)) == ReviewStatus::Approved,
        status_of_text(Some("rejected"@)) == ReviewStatus::Rejected,
        status_of_text(None) == ReviewStatus::Approved,
        text != "draft"@ && text != "review"@ && text != "rejected"@ ==> status_of_text(Some(text)) == ReviewStatus::Approved,
{
    crate::db::lemma_status_text_round_trip(ReviewStatus::Draft);
    crate::db::lemma_status_text_round_trip(ReviewStatus::Review);
    crate::db::lemma_status_text_round_trip(ReviewStatus::Approved);
    crate::db::lemma_status_text_round_trip(ReviewStatus::Rejected);
}

/// A stored row reads as the product it holds: id, name, price, stock,
/// warranty and notes as stored, "Unknown" for each empty text column.
pub proof fn law_row_reads_as_stored(q: Product, row: ProductRow)
    requires
        row_product(q, row),
    ensures
        q.id == row.id,
        q.name == row.name,
        q.price_bits == row.price_bits,
        q.inventory == row.inventory,
        row.brand matches Some(b) ==> q.brand@ == b@,
        row.brand is None ==> q.brand@ == "Unknown"@,
        row.model matches Some(m) ==> q.model@ == m@,
        row.model is None ==> q.model@ == "Unknown"@,
        row.condition matches Some(c) ==> q.condition@ == c@,
        row.condition is None ==> q.condition@ == "Unknown"@,
        q.warranty == row.warranty,
        q.review_notes == row.review_notes,
        row.status is None ==> q.status == ReviewStatus::Approved,
{
}

/// The row written for a product holds every field of it, the status as its name.
pub proof fn law_row_written_holds_product(row: ProductRow, p: Product)
    requires
        stores_product(row, p),
    ensures
        row.id == p.id,
        row.name == p.name,
        row.price_bits == p.price_bits,
        row.inventory == p.inventory,
        row.brand == Some(p.brand),
        row.model == Some(p.model),
        row.condition == Some(p.condition),
        row.warranty == p.warranty,
        row.review_notes == p.review_notes,
        row.status is Some,
        p.status == ReviewStatus::Approved ==> row.status.unwrap()@ == "approved"@,
        p.status == ReviewStatus::Review ==> row.status.unwrap()@ == "review"@,
        p.status == ReviewStatus::Draft ==> row.status.unwrap()@ == "draft"@,
        p.status == ReviewStatus::Rejected ==> row.status.unwrap()@ == "rejected"@,
{
}


proof fn lemma_digit_code(d: int)
    requires
        0 <= d < 10,
    ensures
        digit_char(d) as int == 48 + d,
{
    assert('0' as int == 48);
    assert('1' as int == 49);
    assert('2' as int == 50);
    assert('3' as int == 51);
    assert('4' as int == 52);
    assert('5' as int == 53);
    assert('6' as int == 54);
    assert('7' as int == 55);
    assert('8' as int == 56);
    assert('9' as int == 57);
}

/// Each digit character stands for its value: the characters for 0 to 9 are
/// '0' to '9' in order, so reading a decimal text back gives the number.
pub proof fn law_decimal_reads_back(n: nat)
    ensures
        decimal_value_of(decimal(n)) == n,
    decreases n,
{
    lemma_digit_code((n % 10) as int);
    let s = decimal(n);
    assert(s.last() == digit_char((n % 10) as int));
    if n >= 10 {
        law_decimal_reads_back(n / 10);
        assert(s.drop_last() =~= decimal(n / 10));
        assert(decimal_value_of(s.drop_last()) == n / 10);
        assert((n / 10) * 10 + n % 10 == n);
    } else {
        assert(s.drop_last() =~= Seq::<char>::empty());
        assert(decimal_value_of(s.drop_last()) == 0);
    }
    assert(decimal_value_of(s) == decimal_value_of(s.drop_last()) * 10 + (s.last() as int - 48));
}

} // verus!

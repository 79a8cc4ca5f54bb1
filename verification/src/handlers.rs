//! The decisions behind the shop's HTTP API: what each request does to the
//! catalog and what it answers. Sending, persisting and broadcasting the
//! answer are left to the caller.

use vstd::prelude::*;
use crate::models::{copy_opt_text, text_or_unknown, text_or_unknown_of, Adjust, NewProduct, PriceUpdate, Product, ReviewAction, ReviewStatus};
use crate::store::{ProductStore, index_of_id};

verus! {

/// Why a request was refused.
#[derive(Clone, Copy, Debug, PartialEq, Eq, Structural)]
pub enum ApiError {
    /// No product has the requested SKU (`404 sku not found`).
    NotFound,
    /// A product with the SKU already exists (`409 sku already exists`).
    AlreadyExists,
    /// A review action other than "approve" or "reject" (`400`).
    UnknownAction,
}

/// The stock level after adding `delta` to `inventory`, held within `0..=u32::MAX`.
pub open spec fn adjusted_inventory(inventory: u32, delta: i32) -> u32 {
    let t: int = inventory + delta;
    if t < 0 {
        0
    } else if t > u32::MAX {
        u32::MAX
    } else {
        t as u32
    }
}

/// `p` with its stock level replaced.
pub open spec fn with_inventory(p: Product, inventory: u32) -> Product {
    Product { inventory, ..p }
}

/// `p` with its price replaced.
pub open spec fn with_price(p: Product, price_bits: u64) -> Product {
    Product { price_bits, ..p }
}

/// `p` is the product that a create request describes: its id is the SKU,
/// texts left out read "Unknown", and it waits for review.
pub open spec fn is_listing_of(p: Product, n: NewProduct) -> bool {
    &&& p.id == n.sku
    &&& p.name == n.name
    &&& p.price_bits == n.price_bits
    &&& p.inventory == n.inventory
    &&& p.brand@ == text_or_unknown(n.brand.deep_view())
    &&& p.model@ == text_or_unknown(n.model.deep_view())
    &&& p.condition@ == text_or_unknown(n.condition.deep_view())
    &&& p.warranty == n.warranty
    &&& p.review_notes == n.review_notes
    &&& p.status == ReviewStatus::Review
}

/// The stock level after adding `delta`, saturating at both ends.
pub fn apply_delta(inventory: u32, delta: i32) -> (r: u32)
    ensures
        r == adjusted_inventory(inventory, delta),
{
    if delta < 0 {
        let dec: u32 = (0i64 - delta as i64) as u32;
        inventory.saturating_sub(dec)
    } else {
        inventory.saturating_add(delta as u32)
    }
}

/// `POST /api/adjust`: changes the stock of an existing product by `delta`,
/// saturating at zero and at `u32::MAX`, and answers the updated product.
pub fn adjust_inventory(store: &mut ProductStore, adj: &Adjust) -> (r: Result<Product, ApiError>)
    ensures
        ({
            let k: Seq<char> = adj.sku@;
            if old(store)@.contains_key(k) {
                let p = with_inventory(
                    old(store)@[k],
                    adjusted_inventory(old(store)@[k].inventory, adj.delta),
                );
                &&& r == Ok::<Product, ApiError>(p)
                &&& final(store)@ == old(store)@.insert(k, p)
                &&& final(store).items() == old(store).items().update(
                    index_of_id(old(store).items(), k),
                    p,
                )
            } else {
                &&& r == Err::<Product, ApiError>(ApiError::NotFound)
                &&& *final(store) == *old(store)
            }
        }),
{
    match store.find(&adj.sku) {
        Some(i) => {
            let mut p = store.products()[i].clone();
            p.inventory = apply_delta(p.inventory, adj.delta);
            store.replace_at(i, p.clone());
            Ok(p)
        },
        None => Err(ApiError::NotFound),
    }
}

/// `POST /api/price`: sets the price of an existing product and answers the
/// updated product.
pub fn update_price(store: &mut ProductStore, update: &PriceUpdate) -> (r: Result<Product, ApiError>)
    ensures
        ({
            let k: Seq<char> = update.sku@;
            if old(store)@.contains_key(k) {
                let p = with_price(old(store)@[k], update.price_bits);
                &&& r == Ok::<Product, ApiError>(p)
                &&& final(store)@ == old(store)@.insert(k, p)
                &&& final(store).items() == old(store).items().update(
                    index_of_id(old(store).items(), k),
                    p,
                )
            } else {
                &&& r == Err::<Product, ApiError>(ApiError::NotFound)
                &&& *final(store) == *old(store)
            }
        }),
{
    match store.find(&update.sku) {
        Some(i) => {
            let mut p = store.products()[i].clone();
            p.price_bits = update.price_bits;
            store.replace_at(i, p.clone());
            Ok(p)
        },
        None => Err(ApiError::NotFound),
    }
}

/// `POST /api/products`: lists a new product under its SKU, waiting for
/// review, unless the SKU is taken.
pub fn add_product(store: &mut ProductStore, new_prod: NewProduct) -> (r: Result<Product, ApiError>)
    ensures
        ({
            let k: Seq<char> = new_prod.sku@;
            if old(store)@.contains_key(k) {
                &&& r == Err::<Product, ApiError>(ApiError::AlreadyExists)
                &&& *final(store) == *old(store)
            } else {
                &&& r is Ok
                &&& is_listing_of(r->Ok_0, new_prod)
                &&& final(store)@ == old(store)@.insert(k, r->Ok_0)
                &&& final(store).items() == old(store).items().push(r->Ok_0)
            }
        }),
{
    if store.find(&new_prod.sku).is_some() {
        return Err(ApiError::AlreadyExists);
    }
    let product = Product {
        id: new_prod.sku,
        name: new_prod.name,
        price_bits: new_prod.price_bits,
        inventory: new_prod.inventory,
        brand: text_or_unknown_of(&new_prod.brand),
        model: text_or_unknown_of(&new_prod.model),
        condition: text_or_unknown_of(&new_prod.condition),
        warranty: new_prod.warranty,
        review_notes: new_prod.review_notes,
        status: ReviewStatus::Review,
    };
    store.upsert(product.clone());
    Ok(product)
}


/// The status that a review action leads to: "approve" approves, "reject"
/// rejects, and any other action is refused.
pub open spec fn review_outcome(action: Seq<char>) -> Option<ReviewStatus> {
    if action == "approve"@ {
        Some(ReviewStatus::Approved)
    } else if action == "reject"@ {
        Some(ReviewStatus::Rejected)
    } else {
        None
    }
}

/// `p` after a review that sets `status`; notes given with the review replace
/// the product's review notes, and without notes the old ones stay.
pub open spec fn reviewed(p: Product, status: ReviewStatus, notes: Option<String>) -> Product {
    Product {
        status,
        review_notes: if notes is Some {
            notes
        } else {
            p.review_notes
        },
        ..p
    }
}

/// The products waiting for review.
pub open spec fn is_pending(p: Product) -> bool {
    p.status == ReviewStatus::Review
}

/// The products of `s` that wait for review, in order.
pub open spec fn pending_of(s: Seq<Product>) -> Seq<Product> {
    s.filter(|p: Product| is_pending(p))
}

/// `POST /api/review`: approves or rejects a product. An unknown action is
/// refused before the SKU is looked up.
pub fn review_product(store: &mut ProductStore, action: &ReviewAction) -> (r: Result<Product, ApiError>)
    ensures
        ({
            let k: Seq<char> = action.sku@;
            match review_outcome(action.action@) {
                None => {
                    &&& r == Err::<Product, ApiError>(ApiError::UnknownAction)
                    &&& *final(store) == *old(store)
                },
                Some(status) => if old(store)@.contains_key(k) {
                    let p = reviewed(old(store)@[k], status, action.notes);
                    &&& r == Ok::<Product, ApiError>(p)
                    &&& final(store)@ == old(store)@.insert(k, p)
                    &&& final(store).items() == old(store).items().update(
                        index_of_id(old(store).items(), k),
                        p,
                    )
                } else {
                    &&& r == Err::<Product, ApiError>(ApiError::NotFound)
                    &&& *final(store) == *old(store)
                },
            }
        }),
{
    let approve = String::from_str("approve");
    let reject = String::from_str("reject");
    let status = if action.action == approve {
        ReviewStatus::Approved
    } else if action.action == reject {
        ReviewStatus::Rejected
    } else {
        return Err(ApiError::UnknownAction);
    };
    match store.find(&action.sku) {
        Some(i) => {
            let mut p = store.products()[i].clone();
            p.status = status;
            if action.notes.is_some() {
                p.review_notes = copy_opt_text(&action.notes);
            }
            store.replace_at(i, p.clone());
            Ok(p)
        },
        None => Err(ApiError::NotFound),
    }
}

/// `GET /api/products`: every product of the catalog, in catalog order.
pub fn list_products(store: &ProductStore) -> (r: Vec<Product>)
    ensures
        r@ == store.items(),
{
    let all = store.products();
    let mut out: Vec<Product> = Vec::new();
    let mut i: usize = 0;
    while i < all.len()
        invariant
            i <= all@.len(),
            out@ == all@.take(i as int),
        decreases all@.len() - i,
    {
        out.push(all[i].clone());
        assert(all@.take(i as int + 1) =~= all@.take(i as int).push(all@[i as int]));
        i = i + 1;
    }
    assert(all@.take(all@.len() as int) =~= all@);
    out
}

/// `GET /api/products/pending`: the products that wait for review, in
/// catalog order.
pub fn list_pending_products(store: &ProductStore) -> (r: Vec<Product>)
    ensures
        r@ == pending_of(store.items()),
{
    let all = store.products();
    let mut out: Vec<Product> = Vec::new();
    let mut i: usize = 0;
    while i < all.len()
        invariant
            i <= all@.len(),
            out@ == pending_of(all@.take(i as int)),
        decreases all@.len() - i,
    {
        let ghost prefix = all@.take(i as int);
        let ghost next = all@.take(i as int + 1);
        assert(next.drop_last() =~= prefix);
        assert(next.last() == all@[i as int]);
        proof {
            reveal(Seq::filter);
        }
        if all[i].status == ReviewStatus::Review {
            out.push(all[i].clone());
        }
        i = i + 1;
    }
    assert(all@.take(all@.len() as int) =~= all@);
    out
}

} // verus!

//! The data model: review status, products and the request bodies of the API.

use vstd::prelude::*;

verus! {

/// Review status for products in the workflow.
///
/// - `Draft`: Product created but not submitted for review
/// - `Review`: Product awaiting approval/rejection
/// - `Approved`: Product approved and available for purchase
/// - `Rejected`: Product rejected during review
#[derive(Clone, Copy, Debug, PartialEq, Eq, Structural)]
pub enum ReviewStatus {
    Draft,
    Review,
    Approved,
    Rejected,
}

/// The lower-case name of a status, as stored and sent over the wire.
pub open spec fn status_text(s: ReviewStatus) -> Seq<char> {
    match s {
        ReviewStatus::Draft => "draft"@,
        ReviewStatus::Review => "review"@,
        ReviewStatus::Approved => "approved"@,
        ReviewStatus::Rejected => "rejected"@,
    }
}

impl ReviewStatus {
    pub fn as_str(&self) -> (r: &'static str)
        ensures
            r@ == status_text(*self),
    {
        match self {
            ReviewStatus::Draft => "draft",
            ReviewStatus::Review => "review",
            ReviewStatus::Approved => "approved",
            ReviewStatus::Rejected => "rejected",
        }
    }

    /// Only approved products are on sale.
    #[verifier::allow_in_spec]
    pub fn is_public(&self) -> bool
        returns
            *self == ReviewStatus::Approved,
    {
        matches!(self, ReviewStatus::Approved)
    }
}


/// Product in the Shopdrop inventory.
///
/// Represents an outlet/refurbished product with additional metadata
/// like condition, warranty, and review status. The price is carried as the
/// bit pattern of an IEEE-754 double (`f64::to_bits`); no rule of the
/// library reads it, it is only stored and handed back.
#[derive(Debug)]
pub struct Product {
    pub id: String,
    pub name: String,
    pub price_bits: u64,
    pub inventory: u32,
    pub brand: String,
    pub model: String,
    pub condition: String,
    pub warranty: Option<String>,
    pub review_notes: Option<String>,
    pub status: ReviewStatus,
}

/// A copy of an optional text, equal to the one given.
pub fn copy_opt_text(t: &Option<String>) -> (r: Option<String>)
    ensures
        r == *t,
{
    match t {
        Some(s) => Some(s.clone()),
        None => None,
    }
}

/// A given text, or "Unknown" where none was given.
pub open spec fn text_or_unknown(t: Option<Seq<char>>) -> Seq<char> {
    match t {
        Some(s) => s,
        None => "Unknown"@,
    }
}

/// The given text, or "Unknown" where none was given.
pub fn text_or_unknown_of(t: &Option<String>) -> (r: String)
    ensures
        r@ == text_or_unknown(t.deep_view()),
{
    match t {
        Some(s) => s.clone(),
        None => String::from_str("Unknown"),
    }
}

impl Clone for Product {
    fn clone(&self) -> (r: Product)
        ensures
            r == *self,
    {
        Product {
            id: self.id.clone(),
            name: self.name.clone(),
            price_bits: self.price_bits,
            inventory: self.inventory,
            brand: self.brand.clone(),
            model: self.model.clone(),
            condition: self.condition.clone(),
            warranty: copy_opt_text(&self.warranty),
            review_notes: copy_opt_text(&self.review_notes),
            status: self.status,
        }
    }
}

/// The description of a product, given as texts: id, name, brand, model,
/// condition, warranty and review notes.
pub struct ProductText {
    pub id: Seq<char>,
    pub name: Seq<char>,
    pub brand: Seq<char>,
    pub model: Seq<char>,
    pub condition: Seq<char>,
    pub warranty: Seq<char>,
    pub notes: Seq<char>,
}

/// `p` is the product with the given texts, price, stock and status, with a
/// warranty and review notes.
pub open spec fn described_by(p: Product, t: ProductText, price_bits: u64, inventory: u32, status: ReviewStatus) -> bool {
    &&& p.id@ == t.id
    &&& p.name@ == t.name
    &&& p.price_bits == price_bits
    &&& p.inventory == inventory
    &&& p.brand@ == t.brand
    &&& p.model@ == t.model
    &&& p.condition@ == t.condition
    &&& p.warranty is Some && p.warranty.unwrap()@ == t.warranty
    &&& p.review_notes is Some && p.review_notes.unwrap()@ == t.notes
    &&& p.status == status
}

/// Builds a product from its texts.
pub fn describe_product(
    id: &str,
    name: &str,
    price_bits: u64,
    inventory: u32,
    brand: &str,
    model: &str,
    condition: &str,
    warranty: &str,
    notes: &str,
    status: ReviewStatus,
) -> (p: Product)
    ensures
        described_by(
            p,
            ProductText {
                id: id@,
                name: name@,
                brand: brand@,
                model: model@,
                condition: condition@,
                warranty: warranty@,
                notes: notes@,
            },
            price_bits,
            inventory,
            status,
        ),
{
    Product {
        id: String::from_str(id),
        name: String::from_str(name),
        price_bits,
        inventory,
        brand: String::from_str(brand),
        model: String::from_str(model),
        condition: String::from_str(condition),
        warranty: Some(String::from_str(warranty)),
        review_notes: Some(String::from_str(notes)),
        status,
    }
}

/// Adjust inventory request for an existing product.
///
/// Used by `POST /api/adjust` to modify stock levels.
/// Delta: positive to add stock, negative to reduce stock
pub struct Adjust {
    pub sku: String,
    pub delta: i32,
}

/// Update product price request.
///
/// Used by `POST /api/price` to change the selling price (as `f64` bits).
pub struct PriceUpdate {
    pub sku: String,
    pub price_bits: u64,
}

/// Create new product request.
///
/// Used by `POST /api/products` to add a new outlet product.
/// Product starts in "review" status and must be approved. Brand, model and
/// condition may be left out; they then read "Unknown".
pub struct NewProduct {
    pub sku: String,
    pub name: String,
    pub brand: Option<String>,
    pub model: Option<String>,
    pub condition: Option<String>,
    pub warranty: Option<String>,
    pub review_notes: Option<String>,
    pub price_bits: u64,
    pub inventory: u32,
}

/// Product review action request.
///
/// Used by `POST /api/review` to approve or reject a product.
///
/// Fields:
/// - `sku`: Product SKU to review
/// - `action`: "approve" or "reject"
/// - `notes`: Optional notes (useful for rejection reasons)
pub struct ReviewAction {
    pub sku: String,
    pub action: String,
    pub notes: Option<String>,
}

} // verus!

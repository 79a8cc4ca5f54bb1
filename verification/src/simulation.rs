//! The background market simulation of price and inventory fluctuations.
//! Every few seconds it may list a new outlet product for review, built from
//! one of a few templates, and it lets the stock of the approved products
//! move up and down (sales and restocks) and picks price steps for them. The
//! caller sleeps between ticks, applies the price steps, persists the
//! products that a tick answers and broadcasts them; a tick itself only
//! decides.

use vstd::prelude::*;
use crate::handlers::with_inventory;
use crate::models::{describe_product, described_by, Product, ProductText, ReviewStatus};
use crate::store::{upserted, ProductStore};

verus! {

/// Number of product templates the simulation lists products from.
pub const TEMPLATE_COUNT: usize = 3;

/// The digit `d` as a character.
pub open spec fn digit_char(d: int) -> char {
    if d == 0 {
        '0'
    } else if d == 1 {
        '1'
    } else if d == 2 {
        '2'
    } else if d == 3 {
        '3'
    } else if d == 4 {
        '4'
    } else if d == 5 {
        '5'
    } else if d == 6 {
        '6'
    } else if d == 7 {
        '7'
    } else if d == 8 {
        '8'
    } else {
        '9'
    }
}

/// The decimal notation of `n`, without leading zeros.
pub open spec fn decimal(n: nat) -> Seq<char>
    decreases n,
{
    if n < 10 {
        seq![digit_char(n as int)]
    } else {
        decimal(n / 10) + seq![digit_char((n % 10) as int)]
    }
}

/// The number that a text of decimal digits stands for, read with the
/// usual character codes: '0' is 48, and each digit counts from there.
pub open spec fn decimal_value_of(s: Seq<char>) -> int
    decreases s.len(),
{
    if s.len() == 0 {
        0
    } else {
        decimal_value_of(s.drop_last()) * 10 + (s.last() as int - 48)
    }
}

/// The SKU that the simulation gives its `n`th listing: "sku-" and `n` in decimal.
pub open spec fn sku_text(n: nat) -> Seq<char> {
    "sku-"@ + decimal(n)
}

fn digit_text(d: u32) -> (s: &'static str)
    requires
        d < 10,
    ensures
        s@ == seq![digit_char(d as int)],
{
    proof {
        reveal_strlit("0");
        reveal_strlit("1");
        reveal_strlit("2");
        reveal_strlit("3");
        reveal_strlit("4");
        reveal_strlit("5");
        reveal_strlit("6");
        reveal_strlit("7");
        reveal_strlit("8");
        reveal_strlit("9");
    }
    let s = if d == 0 {
        "0"
    } else if d == 1 {
        "1"
    } else if d == 2 {
        "2"
    } else if d == 3 {
        "3"
    } else if d == 4 {
        "4"
    } else if d == 5 {
        "5"
    } else if d == 6 {
        "6"
    } else if d == 7 {
        "7"
    } else if d == 8 {
        "8"
    } else {
        "9"
    };
    assert(s@ =~= seq![digit_char(d as int)]);
    s
}

/// `n` written in decimal.
pub fn decimal_text(n: u32) -> (s: String)
    ensures
        s@ == decimal(n as nat),
{
    let mut m: u32 = n / 10;
    let mut acc = String::from_str(digit_text(n % 10));
    while m > 0
        invariant
            decimal(n as nat) == (if m == 0 {
                Seq::<char>::empty()
            } else {
                decimal(m as nat)
            }) + acc@,
        decreases m,
    {
        let d = digit_text(m % 10);
        let ghost old_acc = acc@;
        acc = String::from_str(d).concat(acc.as_str());
        assert(decimal(m as nat) == (if m / 10 == 0 {
            Seq::<char>::empty()
        } else {
            decimal((m / 10) as nat)
        }) + seq![digit_char((m % 10) as int)]);
        assert(acc@ == seq![digit_char((m % 10) as int)] + old_acc);
        m = m / 10;
        assert(decimal(n as nat) =~= (if m == 0 {
            Seq::<char>::empty()
        } else {
            decimal(m as nat)
        }) + acc@);
    }
    assert(decimal(n as nat) =~= acc@);
    acc
}

/// The SKU "sku-`n`".
pub fn sku_for(n: i32) -> (s: String)
    requires
        n >= 0,
    ensures
        s@ == sku_text(n as nat),
{
    String::from_str("sku-").concat(decimal_text(n as u32).as_str())
}


/// The texts of template `i`, for a listing under `sku`.
pub open spec fn template_text(i: int, sku: Seq<char>) -> ProductText {
    if i == 0 {
        ProductText {
            id: sku,
            name: "Outlet Power Bank"@,
            brand: "ChargeCo"@,
            model: "PB-100"@,
            condition: "Open-box"@,
            warranty: "30-day"@,
            notes: "Incoming inventory for inspection."@,
        }
    } else if i == 1 {
        ProductText {
            id: sku,
            name: "Outlet Bluetooth Speaker"@,
            brand: "SoundWave"@,
            model: "SPK-250"@,
            condition: "Refurbished"@,
            warranty: "90-day"@,
            notes: "Quality check pending."@,
        }
    } else {
        ProductText {
            id: sku,
            name: "Outlet Smart Charger"@,
            brand: "Voltix"@,
            model: "SC-45"@,
            condition: "Like New"@,
            warranty: "60-day"@,
            notes: "Needs final review."@,
        }
    }
}

/// The list price of template `i`, as `f64` bits (29.99, 49.99 and 24.99 dollars).
pub open spec fn template_price_bits(i: int) -> u64 {
    if i == 0 {
        0x403dfd70a3d70a3d
    } else if i == 1 {
        0x4048feb851eb851f
    } else {
        0x4038fd70a3d70a3d
    }
}

/// The stock that a listing from template `i` starts with.
pub open spec fn template_stock(i: int) -> u32 {
    if i == 0 {
        6
    } else if i == 1 {
        4
    } else {
        8
    }
}

/// `p` is the listing of template `i` under `sku`, waiting for review.
pub open spec fn template_listing(p: Product, i: int, sku: Seq<char>) -> bool {
    described_by(p, template_text(i, sku), template_price_bits(i), template_stock(i), ReviewStatus::Review)
}

/// The name of template `i`.
pub fn template_name(i: usize) -> (s: &'static str)
    requires
        i < TEMPLATE_COUNT,
    ensures
        s@ == template_text(i as int, Seq::empty()).name,
{
    if i == 0 {
        "Outlet Power Bank"
    } else if i == 1 {
        "Outlet Bluetooth Speaker"
    } else {
        "Outlet Smart Charger"
    }
}

/// The listing of template `i` under `sku`.
pub fn template_product(i: usize, sku: &str) -> (p: Product)
    requires
        i < TEMPLATE_COUNT,
    ensures
        template_listing(p, i as int, sku@),
{
    if i == 0 {
        describe_product(
            sku,
            "Outlet Power Bank",
            0x403dfd70a3d70a3d,
            6,
            "ChargeCo",
            "PB-100",
            "Open-box",
            "30-day",
            "Incoming inventory for inspection.",
            ReviewStatus::Review,
        )
    } else if i == 1 {
        describe_product(
            sku,
            "Outlet Bluetooth Speaker",
            0x4048feb851eb851f,
            4,
            "SoundWave",
            "SPK-250",
            "Refurbished",
            "90-day",
            "Quality check pending.",
            ReviewStatus::Review,
        )
    } else {
        describe_product(
            sku,
            "Outlet Smart Charger",
            0x4038fd70a3d70a3d,
            8,
            "Voltix",
            "SC-45",
            "Like New",
            "60-day",
            "Needs final review.",
            ReviewStatus::Review,
        )
    }
}

/// Some product of `s` waits for review under the name `name`.
pub open spec fn has_pending_named(s: Seq<Product>, name: Seq<char>) -> bool {
    exists|i: int| 0 <= i < s.len() && #[trigger] s[i].status == ReviewStatus::Review && s[i].name@ == name
}

/// Whether a product of the catalog waits for review under the name `name`.
pub fn pending_named(store: &ProductStore, name: &str) -> (b: bool)
    ensures
        b == has_pending_named(store.items(), name@),
{
    let all = store.products();
    let wanted = String::from_str(name);
    let mut i: usize = 0;
    while i < all.len()
        invariant
            i <= all@.len(),
            all@ == store.items(),
            wanted@ == name@,
            forall|j: int| 0 <= j < i ==> !(#[trigger] all@[j].status == ReviewStatus::Review && all@[j].name@ == name@),
        decreases all@.len() - i,
    {
        if all[i].status == ReviewStatus::Review && all[i].name == wanted {
            assert(store.items()[i as int].status == ReviewStatus::Review && store.items()[i as int].name@ == name@);
            return true;
        }
        i = i + 1;
    }
    false
}

/// The simulation's own state: the number of its next listing.
pub struct Simulation {
    next_sku_id: i32,
}

impl Simulation {
    #[verifier::type_invariant]
    spec fn counter_valid(self) -> bool {
        self.next_sku_id >= 0
    }

    /// The number that the next listing's SKU carries.
    pub closed spec fn next_listing(self) -> int {
        self.next_sku_id as int
    }

    /// A simulation whose first listing is "sku-300".
    pub fn new() -> (s: Simulation)
        ensures
            s.next_listing() == 300,
    {
        Simulation { next_sku_id: 300 }
    }

    pub fn next_sku_id(&self) -> (n: i32)
        ensures
            n == self.next_listing(),
            n >= 0,
    {
        proof {
            use_type_invariant(self);
        }
        self.next_sku_id
    }
}

/// Lists a product from template `template` under the simulation's next SKU,
/// unless a product with the template's name already waits for review (the
/// review queue is not flooded with duplicates). A product that already has
/// that SKU is replaced.
pub fn spawn_from_template(sim: &mut Simulation, store: &mut ProductStore, template: usize) -> (r: Option<Product>)
    requires
        template < TEMPLATE_COUNT,
        !has_pending_named(old(store).items(), template_text(template as int, Seq::empty()).name)
            ==> old(sim).next_listing() < i32::MAX,
    ensures
        has_pending_named(old(store).items(), template_text(template as int, Seq::empty()).name) ==> {
            &&& r is None
            &&& *final(store) == *old(store)
            &&& *final(sim) == *old(sim)
        },
        !has_pending_named(old(store).items(), template_text(template as int, Seq::empty()).name) ==> {
            &&& r is Some
            &&& template_listing(r.unwrap(), template as int, sku_text(old(sim).next_listing() as nat))
            &&& final(store).items() == upserted(old(store).items(), r.unwrap())
            &&& final(store)@ == old(store)@.insert(r.unwrap().id@, r.unwrap())
            &&& final(sim).next_listing() == old(sim).next_listing() + 1
        },
{
    if pending_named(store, template_name(template)) {
        return None;
    }
    let n: i32 = sim.next_sku_id();
    let sku = sku_for(n);
    let product = template_product(template, sku.as_str());
    sim.next_sku_id = n + 1;
    store.upsert(product.clone());
    Some(product)
}

/// The stock of a product after a simulated sale of `amount` units, which
/// only happens where `sold` holds and there is stock; it stops at zero.
pub open spec fn worn_stock(inventory: u32, sold: bool, amount: u32) -> u32 {
    if sold && inventory > 0 {
        if inventory >= amount {
            (inventory - amount) as u32
        } else {
            0
        }
    } else {
        inventory
    }
}

/// The stock after a sale (see `worn_stock`) and then, where `restocked`
/// holds, a delivery of `extra` units; it stops at `u32::MAX`.
pub open spec fn fluctuated_stock(inventory: u32, sold: bool, amount: u32, restocked: bool, extra: u32) -> u32 {
    let w = worn_stock(inventory, sold, amount);
    if restocked {
        if w + extra > u32::MAX {
            u32::MAX
        } else {
            (w + extra) as u32
        }
    } else {
        w
    }
}

/// Applies a simulated sale and a simulated delivery to a product.
pub fn fluctuate_product(p: Product, sold: bool, amount: u32, restocked: bool, extra: u32) -> (r: Product)
    ensures
        r == with_inventory(p, fluctuated_stock(p.inventory, sold, amount, restocked, extra)),
{
    let mut p = p;
    if sold && p.inventory > 0 {
        p.inventory = p.inventory.saturating_sub(amount);
    }
    if restocked {
        p.inventory = p.inventory.saturating_add(extra);
    }
    p
}

/// `rand::random_ratio`: draws `true` with probability
/// `numerator / denominator` from the thread-local generator. Its
/// documentation guarantees `false` when `numerator` is zero and `true` when
/// it equals `denominator`; it panics when `denominator` is zero or below
/// `numerator`, which `requires` rules out. Nothing else is claimed of the
/// draw.
#[verifier::external_body]
fn random_ratio(numerator: u32, denominator: u32) -> (b: bool)
    requires
        0 < denominator,
        numerator <= denominator,
    ensures
        numerator == 0 ==> !b,
        numerator == denominator ==> b,
{
    rand::random_ratio(numerator, denominator)
}

/// `rand::random_range` over `0..n`: a number drawn uniformly below `n` from
/// the thread-local generator; it panics on an empty range, which `requires`
/// rules out. Only the range of the result is claimed.
#[verifier::external_body]
fn random_below(n: u32) -> (r: u32)
    requires
        0 < n,
    ensures
        r < n,
{
    rand::random_range(0..n)
}

/// The largest price step of one tick, in cents, either way.
pub const MAX_PRICE_STEP_CENTS: i32 = 100;

/// A product on sale: approved products are public.
pub open spec fn is_public_product(p: Product) -> bool {
    p.status == ReviewStatus::Approved
}

/// The public products of `s`, in order.
pub open spec fn public_of(s: Seq<Product>) -> Seq<Product> {
    s.filter(|p: Product| is_public_product(p))
}

/// `after` is `before` after one round of simulated sales and deliveries:
/// products not on sale are untouched, and a product on sale changes at most
/// in its stock, which drops by no more than two and grows by no more than
/// three.
pub open spec fn fluctuated_catalog(before: Seq<Product>, after: Seq<Product>) -> bool {
    &&& after.len() == before.len()
    &&& forall|i: int|
        0 <= i < before.len() ==> if is_public_product(#[trigger] before[i]) {
            &&& after[i] == with_inventory(before[i], after[i].inventory)
            &&& after[i].inventory <= before[i].inventory + 3
            &&& before[i].inventory <= after[i].inventory + 2
        } else {
            after[i] == before[i]
        }
}

/// Every price step lies within `MAX_PRICE_STEP_CENTS` either way.
pub open spec fn steps_bounded(steps: Seq<i32>) -> bool {
    forall|i: int| 0 <= i < steps.len() ==> -MAX_PRICE_STEP_CENTS <= #[trigger] steps[i] <= MAX_PRICE_STEP_CENTS
}

/// One round of fluctuations on the approved products, in catalog order. For
/// each, a sale happens with chance 3 in 10 and, where there is stock, takes
/// 0, 1 or 2 units (uniformly); then a delivery happens with chance 1 in 10
/// and brings 1, 2 or 3 units; then its price moves with chance 1 in 10, by
/// a step drawn uniformly from -100..=100 cents. Answers every approved
/// product after the round, in catalog order, and beside each the price step
/// picked for it (0 where its price stays), for the caller to apply.
pub fn fluctuate_public_products(store: &mut ProductStore) -> (r: (Vec<Product>, Vec<i32>))
    ensures
        fluctuated_catalog(old(store).items(), final(store).items()),
        r.0@ == public_of(final(store).items()),
        r.1@.len() == r.0@.len(),
        steps_bounded(r.1@),
{
    let ghost before = store.items();
    let n: usize = store.len();
    let mut updates: Vec<Product> = Vec::new();
    let mut steps: Vec<i32> = Vec::new();
    let mut i: usize = 0;
    while i < n
        invariant
            n == before.len(),
            i <= n,
            store.items().len() == n,
            forall|j: int|
                0 <= j < i ==> if is_public_product(#[trigger] before[j]) {
                    &&& store.items()[j] == with_inventory(before[j], store.items()[j].inventory)
                    &&& store.items()[j].inventory <= before[j].inventory + 3
                    &&& before[j].inventory <= store.items()[j].inventory + 2
                } else {
                    store.items()[j] == before[j]
                },
            forall|j: int| i <= j < n ==> #[trigger] store.items()[j] == before[j],
            updates@ == public_of(store.items().take(i as int)),
            steps@.len() == updates@.len(),
            steps_bounded(steps@),
        decreases n - i,
    {
        let ghost items0 = store.items();
        let p = store.products()[i].clone();
        if p.status == ReviewStatus::Approved {
            let sold = random_ratio(3, 10);
            let amount: u32 = if sold && p.inventory > 0 {
                random_below(3)
            } else {
                0
            };
            let restocked = random_ratio(1, 10);
            let extra: u32 = if restocked {
                random_below(3) + 1
            } else {
                0
            };
            let moved = random_ratio(1, 10);
            let step: i32 = if moved {
                (random_below(201) as i32) - 100
            } else {
                0
            };
            let q = fluctuate_product(p, sold, amount, restocked, extra);
            store.replace_at(i, q.clone());
            updates.push(q);
            steps.push(step);
        }
        proof {
            let items1 = store.items();
            assert(items1.take(i as int + 1).drop_last() =~= items0.take(i as int));
            assert(items1.take(i as int + 1).last() == items1[i as int]);
            reveal(Seq::filter);
            assert forall|j: int| i + 1 <= j < n implies #[trigger] store.items()[j] == before[j] by {
                assert(items1[j] == items0[j]);
            }
            assert forall|j: int| 0 <= j < i implies #[trigger] items1[j] == items0[j] by {}
        }
        i = i + 1;
    }
    assert(store.items().take(n as int) =~= store.items());
    (updates, steps)
}

/// Draws whether this tick lists a product and from which template: with
/// chance 3 in 20, a template drawn uniformly.
pub fn draw_listing() -> (t: Option<usize>)
    ensures
        t matches Some(i) ==> i < TEMPLATE_COUNT,
{
    if random_ratio(3, 20) {
        Some(random_below(3) as usize)
    } else {
        None
    }
}

/// What a tick of the simulation decided.
pub enum TickOutcome {
    /// The tick's template has a product that already waits for review, and
    /// the tick was abandoned as a whole: nothing changed.
    DuplicatePending,
    /// The tick ran: `spawned` is the product it listed, if any (to be
    /// persisted and broadcast); `updates` are the approved products after
    /// the round of fluctuations, and `price_steps` the price step in cents
    /// picked for each of them (to be applied, then persisted and broadcast).
    Completed { spawned: Option<Product>, updates: Vec<Product>, price_steps: Vec<i32> },
}

/// One tick of the simulation, given the listing that `draw_listing` drew.
/// A listing from a template whose product already waits for review
/// abandons the whole tick; otherwise the product is listed, and a round of
/// fluctuations on the approved products follows.
pub fn simulation_tick(sim: &mut Simulation, store: &mut ProductStore, listing: Option<usize>) -> (out: TickOutcome)
    requires
        listing matches Some(t) ==> t < TEMPLATE_COUNT,
        listing matches Some(t) ==> (!has_pending_named(old(store).items(), template_text(t as int, Seq::empty()).name)
            ==> old(sim).next_listing() < i32::MAX),
    ensures
        match out {
            TickOutcome::DuplicatePending => {
                &&& listing is Some
                &&& has_pending_named(old(store).items(), template_text(listing.unwrap() as int, Seq::empty()).name)
                &&& *final(store) == *old(store)
                &&& *final(sim) == *old(sim)
            },
            TickOutcome::Completed { spawned, updates, price_steps } => {
                &&& updates@ == public_of(final(store).items())
                &&& price_steps@.len() == updates@.len()
                &&& steps_bounded(price_steps@)
                &&& match spawned {
                    None => {
                        &&& listing is None
                        &&& *final(sim) == *old(sim)
                        &&& fluctuated_catalog(old(store).items(), final(store).items())
                    },
                    Some(p) => {
                        &&& listing is Some
                        &&& !has_pending_named(old(store).items(), template_text(listing.unwrap() as int, Seq::empty()).name)
                        &&& template_listing(p, listing.unwrap() as int, sku_text(old(sim).next_listing() as nat))
                        &&& final(sim).next_listing() == old(sim).next_listing() + 1
                        &&& fluctuated_catalog(upserted(old(store).items(), p), final(store).items())
                    },
                }
            },
        },
{
    let mut spawned: Option<Product> = None;
    if let Some(t) = listing {
        match spawn_from_template(sim, store, t) {
            Some(p) => {
                spawned = Some(p);
            },
            None => {
                return TickOutcome::DuplicatePending;
            },
        }
    }
    let (updates, price_steps) = fluctuate_public_products(store);
    TickOutcome::Completed { spawned, updates, price_steps }
}

} // verus!

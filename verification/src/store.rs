//! The in-memory product catalog: products keyed by their SKU, which is also
//! their id. No two products share an id.

use vstd::prelude::*;
use crate::models::Product;

verus! {

/// No id occurs twice in `s`.
pub open spec fn ids_unique(s: Seq<Product>) -> bool {
    forall|i: int, j: int|
        0 <= i < s.len() && 0 <= j < s.len() && i != j ==> #[trigger] s[i].id@ != #[trigger] s[j].id@
}

/// Some product of `s` has the id `k`.
pub open spec fn has_id(s: Seq<Product>, k: Seq<char>) -> bool {
    exists|i: int| 0 <= i < s.len() && #[trigger] s[i].id@ == k
}

/// The position of the product with id `k` in `s` (meaningful where `has_id(s, k)`).
pub open spec fn index_of_id(s: Seq<Product>, k: Seq<char>) -> int {
    choose|i: int| 0 <= i < s.len() && #[trigger] s[i].id@ == k
}

/// The catalog that a sequence of products describes: each id mapped to its product.
pub open spec fn catalog(s: Seq<Product>) -> Map<Seq<char>, Product> {
    Map::new(|k: Seq<char>| has_id(s, k), |k: Seq<char>| s[index_of_id(s, k)])
}

/// In a sequence without repeated ids, the product at `i` is the one that its id maps to.
pub proof fn lemma_catalog_at(s: Seq<Product>, i: int)
    requires
        ids_unique(s),
        0 <= i < s.len(),
    ensures
        has_id(s, s[i].id@),
        index_of_id(s, s[i].id@) == i,
        catalog(s).contains_key(s[i].id@),
        catalog(s)[s[i].id@] == s[i],
{
    let k = s[i].id@;
    assert(has_id(s, k));
    let j: int = index_of_id(s, k);
    assert(s[j].id@ == k);
}

/// Replacing the product at `i` by one with the same id replaces that entry of the catalog.
pub proof fn lemma_catalog_update(s: Seq<Product>, i: int, p: Product)
    requires
        ids_unique(s),
        0 <= i < s.len(),
        s[i].id@ == p.id@,
    ensures
        ids_unique(s.update(i, p)),
        catalog(s.update(i, p)) == catalog(s).insert(p.id@, p),
{
    let t = s.update(i, p);
    assert forall|a: int, b: int|
        0 <= a < t.len() && 0 <= b < t.len() && a != b implies #[trigger] t[a].id@ != #[trigger] t[b].id@ by {
        if a != i && b != i {
            assert(t[a] == s[a] && t[b] == s[b]);
        } else if a == i {
            assert(t[b] == s[b]);
            assert(s[b].id@ != s[i].id@);
        } else {
            assert(t[a] == s[a]);
            assert(s[a].id@ != s[i].id@);
        }
    }
    let m = catalog(s).insert(p.id@, p);
    assert forall|k: Seq<char>| #[trigger] has_id(t, k) <==> m.contains_key(k) by {
        if has_id(t, k) {
            let j: int = choose|j: int| 0 <= j < t.len() && #[trigger] t[j].id@ == k;
            if j != i {
                assert(s[j].id@ == k);
            }
        }
        if m.contains_key(k) && k != p.id@ {
            let j: int = choose|j: int| 0 <= j < s.len() && #[trigger] s[j].id@ == k;
            assert(t[j].id@ == k);
        }
        if k == p.id@ {
            assert(t[i].id@ == k);
        }
    }
    assert forall|k: Seq<char>| #[trigger] has_id(t, k) implies t[index_of_id(t, k)] == m[k] by {
        let j: int = index_of_id(t, k);
        assert(t[j].id@ == k);
        if k == p.id@ {
            assert(t[i].id@ == k);
        } else {
            assert(j != i);
            assert(s[j].id@ == k);
            lemma_catalog_at(s, j);
        }
    }
    assert(catalog(t) =~= m);
}

/// Appending a product whose id is new adds one entry to the catalog.
pub proof fn lemma_catalog_push(s: Seq<Product>, p: Product)
    requires
        ids_unique(s),
        !has_id(s, p.id@),
    ensures
        ids_unique(s.push(p)),
        catalog(s.push(p)) == catalog(s).insert(p.id@, p),
{
    let t = s.push(p);
    let n: int = s.len() as int;
    assert forall|a: int, b: int|
        0 <= a < t.len() && 0 <= b < t.len() && a != b implies #[trigger] t[a].id@ != #[trigger] t[b].id@ by {
        if a != n && b != n {
            assert(t[a] == s[a] && t[b] == s[b]);
        } else if a == n {
            assert(t[b] == s[b]);
        } else {
            assert(t[a] == s[a]);
        }
    }
    let m = catalog(s).insert(p.id@, p);
    assert forall|k: Seq<char>| #[trigger] has_id(t, k) <==> m.contains_key(k) by {
        if has_id(t, k) {
            let j: int = choose|j: int| 0 <= j < t.len() && #[trigger] t[j].id@ == k;
            if j != n {
                assert(s[j].id@ == k);
            }
        }
        if m.contains_key(k) && k != p.id@ {
            let j: int = choose|j: int| 0 <= j < s.len() && #[trigger] s[j].id@ == k;
            assert(t[j].id@ == k);
        }
        if k == p.id@ {
            assert(t[n].id@ == k);
        }
    }
    assert forall|k: Seq<char>| #[trigger] has_id(t, k) implies t[index_of_id(t, k)] == m[k] by {
        let j: int = index_of_id(t, k);
        assert(t[j].id@ == k);
        if k == p.id@ {
            assert(t[n].id@ == k);
        } else {
            assert(j != n);
            assert(s[j].id@ == k);
            lemma_catalog_at(s, j);
        }
    }
    assert(catalog(t) =~= m);
}

/// `s` after putting `p` under its id: in place of the product with that id,
/// or at the end where there is none.
pub open spec fn upserted(s: Seq<Product>, p: Product) -> Seq<Product> {
    if has_id(s, p.id@) {
        s.update(index_of_id(s, p.id@), p)
    } else {
        s.push(p)
    }
}

/// The shop's product catalog, keyed by SKU.
pub struct ProductStore {
    products: Vec<Product>,
}

impl View for ProductStore {
    type V = Map<Seq<char>, Product>;

    open spec fn view(&self) -> Map<Seq<char>, Product> {
        catalog(self.items())
    }
}

impl ProductStore {
    #[verifier::type_invariant]
    spec fn unique(self) -> bool {
        ids_unique(self.products@)
    }

    /// The products in the order in which they were first added.
    pub closed spec fn items(self) -> Seq<Product> {
        self.products@
    }

    /// An empty catalog.
    pub fn new() -> (s: ProductStore)
        ensures
            s.items() == Seq::<Product>::empty(),
            s@ == Map::<Seq<char>, Product>::empty(),
    {
        let s = ProductStore { products: Vec::new() };
        assert(s@ =~= Map::<Seq<char>, Product>::empty());
        s
    }

    /// No two products of a store share an id.
    pub fn products(&self) -> (r: &Vec<Product>)
        ensures
            r@ == self.items(),
            ids_unique(self.items()),
    {
        proof {
            use_type_invariant(self);
        }
        &self.products
    }

    pub fn len(&self) -> (n: usize)
        ensures
            n == self.items().len(),
    {
        self.products.len()
    }

    /// The position of the product with the given SKU, if there is one.
    pub fn find(&self, sku: &String) -> (r: Option<usize>)
        ensures
            match r {
                Some(i) => i < self.items().len() && self.items()[i as int].id@ == sku@
                    && index_of_id(self.items(), sku@) == i
                    && self@.contains_key(sku@) && self@[sku@] == self.items()[i as int],
                None => !has_id(self.items(), sku@) && !self@.contains_key(sku@),
            },
    {
        proof {
            use_type_invariant(self);
        }
        let n: usize = self.products.len();
        let mut i: usize = 0;
        while i < n
            invariant
                n == self.products@.len(),
                ids_unique(self.products@),
                i <= n,
                forall|j: int| 0 <= j < i ==> #[trigger] self.products@[j].id@ != sku@,
            decreases n - i,
        {
            if self.products[i].id == *sku {
                proof {
                    lemma_catalog_at(self.products@, i as int);
                }
                return Some(i);
            }
            i = i + 1;
        }
        None
    }

    /// The product with the given SKU, if there is one.
    pub fn get(&self, sku: &String) -> (r: Option<&Product>)
        ensures
            match r {
                Some(p) => self@.contains_key(sku@) && *p == self@[sku@],
                None => !self@.contains_key(sku@),
            },
    {
        match self.find(sku) {
            Some(i) => Some(&self.products[i]),
            None => None,
        }
    }

    /// Puts the product at `i` in place of the one there, which has the same id.
    pub fn replace_at(&mut self, i: usize, p: Product)
        requires
            i < old(self).items().len(),
            old(self).items()[i as int].id@ == p.id@,
        ensures
            final(self).items() == old(self).items().update(i as int, p),
            final(self)@ == old(self)@.insert(p.id@, p),
    {
        proof {
            use_type_invariant(&*self);
            lemma_catalog_update(self.products@, i as int, p);
        }
        let mut v: Vec<Product> = Vec::new();
        std::mem::swap(&mut v, &mut self.products);
        v.set(i, p);
        self.products = v;
    }

    /// Inserts the product under its id, in place of any product with that id.
    pub fn upsert(&mut self, p: Product)
        ensures
            final(self)@ == old(self)@.insert(p.id@, p),
            final(self).items() == upserted(old(self).items(), p),
    {
        proof {
            use_type_invariant(&*self);
        }
        match self.find(&p.id) {
            Some(i) => {
                proof {
                    lemma_catalog_at(self.products@, i as int);
                }
                self.replace_at(i, p);
            },
            None => {
                proof {
                    lemma_catalog_push(self.products@, p);
                }
                let mut v: Vec<Product> = Vec::new();
                std::mem::swap(&mut v, &mut self.products);
                v.push(p);
                self.products = v;
            },
        }
    }
}

} // verus!

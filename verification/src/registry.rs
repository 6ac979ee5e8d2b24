//! The product catalogue: an append-only list of records, looked up by
//! barcode.

use vstd::prelude::*;

verus! {

/// A product record. A record never changes once it has been appended.
///
/// Neither `id` nor `barcode` needs to be unique in a registry.
#[derive(Debug, PartialEq, Eq)]
pub struct Product {
    pub id: u64,
    pub name: String,
    pub barcode: String,
    pub is_fake: bool,
}

/// What a [`Product`] holds, as mathematical values.
pub struct ProductView {
    pub id: u64,
    pub name: Seq<char>,
    pub barcode: Seq<char>,
    pub is_fake: bool,
}

impl View for Product {
    type V = ProductView;

    open spec fn view(&self) -> ProductView {
        ProductView {
            id: self.id,
            name: self.name@,
            barcode: self.barcode@,
            is_fake: self.is_fake,
        }
    }
}

/// Whether record `i` is the earliest record of `products` that carries
/// `barcode`.
pub open spec fn is_first_match(products: Seq<ProductView>, barcode: Seq<char>, i: int) -> bool {
    &&& 0 <= i < products.len()
    &&& products[i].barcode == barcode
    &&& forall|j: int| 0 <= j < i ==> (#[trigger] products[j]).barcode != barcode
}

/// Whether `barcode` belongs to a genuine product: some record carries it,
/// and the earliest such record is not flagged as fake.
pub open spec fn is_genuine(products: Seq<ProductView>, barcode: Seq<char>) -> bool {
    exists|i: int| #[trigger] is_first_match(products, barcode, i) && !products[i].is_fake
}

/// The records of the catalogue, in the order in which they were appended.
pub struct ProductRegistry {
    products: Vec<Product>,
}

impl View for ProductRegistry {
    type V = Seq<ProductView>;

    closed spec fn view(&self) -> Seq<ProductView> {
        Seq::new(self.products@.len(), |i: int| self.products@[i]@)
    }
}

impl ProductRegistry {
    /// The empty registry.
    pub fn new() -> (registry: ProductRegistry)
        ensures
            registry@ == Seq::<ProductView>::empty(),
    {
        ProductRegistry { products: Vec::new() }
    }

    /// The number of records.
    pub fn len(&self) -> (n: usize)
        ensures
            n == self@.len(),
    {
        self.products.len()
    }

    /// The record appended as number `index`, counting from zero, or `None`
    /// where fewer records have been appended.
    pub fn get(&self, index: usize) -> (record: Option<&Product>)
        ensures
            index < self@.len() ==> record is Some && record.unwrap()@ == self@[index as int],
            index >= self@.len() ==> record is None,
    {
        if index < self.products.len() {
            Some(&self.products[index])
        } else {
            None
        }
    }

    /// Appends a record at the end. The records already there stay as they are.
    pub fn append(&mut self, product: Product)
        ensures
            final(self)@ == old(self)@.push(product@),
    {
        self.products.push(product);
    }

    /// Whether `barcode` belongs to a genuine product. Where several records
    /// carry the barcode, the earliest one decides.
    pub fn is_valid_product(&self, barcode: &String) -> (valid: bool)
        ensures
            valid == is_genuine(self@, barcode@),
    {
        let count = self.products.len();
        let mut i: usize = 0;
        while i < count
            invariant
                count == self.products@.len(),
                i <= count,
                forall|j: int| 0 <= j < i ==> (#[trigger] self@[j]).barcode != barcode@,
            decreases count - i,
        {
            if self.products[i].barcode == *barcode {
                assert(is_first_match(self@, barcode@, i as int));
                return !self.products[i].is_fake;
            }
            i += 1;
        }
        false
    }
}

} // verus!

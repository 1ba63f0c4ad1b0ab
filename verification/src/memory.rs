use vstd::prelude::*;

use crate::product::{Product, ProductView};
use crate::product_trait::{
    code_listed, code_views, has_code, is_first_match, selected, views_of, ProductTrait,
    ProductTraitError,
};

verus! {

/// A storage backend whose records live in memory, in insertion order. It
/// is the reference implementation of the capability set; handler tests run
/// against it without a live document store.
pub struct MemoryStore {
    records: Vec<Product>,
}

/// Whether `code` is one of the given barcodes.
fn code_in_list(barcodes: &Vec<String>, code: &String) -> (r: bool)
    ensures
        r == code_listed(code_views(barcodes@), code@),
{
    let mut j: usize = 0;
    while j < barcodes.len()
        invariant
            j <= barcodes.len(),
            forall|k: int| 0 <= k < j ==> barcodes@[k]@ != code@,
        decreases barcodes.len() - j,
    {
        if barcodes[j] == *code {
            assert(code_views(barcodes@)[j as int] == barcodes@[j as int]@);
            return true;
        }
        j += 1;
    }
    assert(forall|k: int| 0 <= k < barcodes@.len() ==> code_views(barcodes@)[k] != code@);
    false
}

impl MemoryStore {
    /// A store holding exactly the given records, in the given order.
    pub fn new(records: Vec<Product>) -> (s: MemoryStore)
        ensures
            s.contents() == views_of(records@),
    {
        MemoryStore { records }
    }

    /// The single lookup: scans the records in order and returns the first
    /// whose barcode matches; `NotFound` when none does. An in-memory scan
    /// cannot fail, so an `Ok` outcome is owed exactly when the barcode is
    /// present.
    pub fn lookup_one(&self, barcode: &String) -> (r: Result<Product, ProductTraitError>)
        ensures
            has_code(self.contents(), barcode@) ==> (r matches Ok(p) && is_first_match(
                self.contents(),
                barcode@,
                p@,
            )),
            !has_code(self.contents(), barcode@) ==> (r matches Err(e) && e
                == ProductTraitError::NotFound),
    {
        let mut i: usize = 0;
        while i < self.records.len()
            invariant
                i <= self.records.len(),
                forall|k: int| 0 <= k < i ==> self.records@[k]@.code != barcode@,
            decreases self.records.len() - i,
        {
            if self.records[i].code == *barcode {
                let p = self.records[i].clone();
                assert(self.contents()[i as int] == self.records@[i as int]@);
                assert(is_first_match(self.contents(), barcode@, p@));
                return Ok(p);
            }
            i += 1;
        }
        assert(forall|k: int|
            0 <= k < self.contents().len() ==> (#[trigger] self.contents()[k]).code
                == self.records@[k]@.code);
        Err(ProductTraitError::NotFound)
    }

    /// The batch lookup: keeps, in store order, every record whose barcode
    /// is among the requested ones. Codes with no match contribute nothing,
    /// and the result is never an error.
    pub fn lookup_many(&self, barcodes: &Vec<String>) -> (r: Vec<Product>)
        ensures
            views_of(r@) == selected(self.contents(), code_views(barcodes@)),
    {
        let ghost codes = code_views(barcodes@);
        let mut out: Vec<Product> = Vec::new();
        let mut i: usize = 0;
        while i < self.records.len()
            invariant
                i <= self.records.len(),
                views_of(out@) == selected(self.contents().take(i as int), codes),
                codes == code_views(barcodes@),
            decreases self.records.len() - i,
        {
            let ghost prefix = self.contents().take(i as int);
            let ghost next = self.contents().take(i + 1);
            assert(next.drop_last() =~= prefix);
            assert(next.last() == self.records@[i as int]@);
            if code_in_list(barcodes, &self.records[i].code) {
                let p = self.records[i].clone();
                assert(views_of(out@.push(p)) =~= views_of(out@).push(p@));
                out.push(p);
            }
            i += 1;
        }
        assert(self.contents().take(self.records@.len() as int) =~= self.contents());
        out
    }
}

impl ProductTrait for MemoryStore {
    closed spec fn contents(&self) -> Seq<ProductView> {
        views_of(self.records@)
    }

    open spec fn reliable(&self) -> bool {
        true
    }

    fn get_product_info(&self, barcode: String) -> (r: Result<Product, ProductTraitError>) {
        self.lookup_one(&barcode)
    }

    fn get_products_info(&self, barcodes: Vec<String>) -> (r: Result<
        Vec<Product>,
        ProductTraitError,
    >) {
        Ok(self.lookup_many(&barcodes))
    }
}

/// A backend whose store cannot be reached: every call fails with the same
/// store error. It exercises the failure path of the handlers, which must
/// keep its diagnostic detail out of every HTTP body.
pub struct DisconnectedStore {
    pub detail: String,
}

impl ProductTrait for DisconnectedStore {
    open spec fn contents(&self) -> Seq<ProductView> {
        Seq::empty()
    }

    open spec fn reliable(&self) -> bool {
        false
    }

    fn get_product_info(&self, barcode: String) -> (r: Result<Product, ProductTraitError>) {
        Err(ProductTraitError::DatabaseError(self.detail.clone()))
    }

    fn get_products_info(&self, barcodes: Vec<String>) -> (r: Result<
        Vec<Product>,
        ProductTraitError,
    >) {
        Err(ProductTraitError::DatabaseError(self.detail.clone()))
    }
}

} // verus!

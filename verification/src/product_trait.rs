use vstd::prelude::*;

use crate::product::{Product, ProductView};

verus! {

/// The store-level failure vocabulary: either no record matched (single
/// lookup only), or the underlying store itself failed, with a diagnostic
/// string that must never reach an HTTP client.
#[derive(Debug)]
pub enum ProductTraitError {
    NotFound,
    DatabaseError(String),
}

/// The records of a sequence `s`, seen as product views.
pub open spec fn views_of(s: Seq<Product>) -> Seq<ProductView> {
    s.map_values(|p: Product| p@)
}

/// The barcodes of a request, seen as character sequences.
pub open spec fn code_views(codes: Seq<String>) -> Seq<Seq<char>> {
    codes.map_values(|c: String| c@)
}

/// Whether some record of `s` carries the barcode `code`.
pub open spec fn has_code(s: Seq<ProductView>, code: Seq<char>) -> bool {
    exists|i: int| 0 <= i < s.len() && s[i].code == code
}

/// Whether `p` is the first record of `s` carrying the barcode `code`.
pub open spec fn is_first_match(s: Seq<ProductView>, code: Seq<char>, p: ProductView) -> bool {
    exists|i: int|
        0 <= i < s.len() && s[i] == p && s[i].code == code && (forall|k: int|
            0 <= k < i ==> s[k].code != code)
}

/// Whether the barcode `code` is one of the requested `codes`.
pub open spec fn code_listed(codes: Seq<Seq<char>>, code: Seq<char>) -> bool {
    exists|j: int| 0 <= j < codes.len() && codes[j] == code
}

/// The records of the store `s` whose barcode is among `codes`, in store
/// order, each store record at most once. This is what a batch lookup
/// returns: codes with no match contribute nothing, and duplicate codes in
/// the request do not duplicate records.
pub open spec fn selected(s: Seq<ProductView>, codes: Seq<Seq<char>>) -> Seq<ProductView>
    decreases s.len(),
{
    if s.len() == 0 {
        Seq::empty()
    } else {
        let prefix = selected(s.drop_last(), codes);
        if code_listed(codes, s.last().code) {
            prefix.push(s.last())
        } else {
            prefix
        }
    }
}

/// The capability set every storage backend offers: a single exact-match
/// lookup and a batch membership lookup. `contents()` is the backend's
/// store seen as a sequence of records; every outcome is stated against it.
/// A store failure may surface at any time, but what is returned on success
/// is pinned down, and `NotFound` is reserved for the single-lookup path.
pub trait ProductTrait: Send + Sync {
    spec fn contents(&self) -> Seq<ProductView>;

    /// Whether this backend can ever produce a store error. A reliable
    /// backend answers every lookup; an unreliable one may fail on any
    /// call.
    spec fn reliable(&self) -> bool;

    /// Looks up exactly one record by exact match on `code`; the first
    /// matching record wins if several share the barcode.
    fn get_product_info(&self, barcode: String) -> (r: Result<Product, ProductTraitError>)
        ensures
            match r {
                Ok(p) => is_first_match(self.contents(), barcode@, p@),
                Err(ProductTraitError::NotFound) => !has_code(self.contents(), barcode@),
                Err(ProductTraitError::DatabaseError(_)) => !self.reliable(),
            },
    ;

    /// Looks up all records whose barcode is a member of `barcodes`;
    /// absent codes are silently omitted, never an error.
    fn get_products_info(&self, barcodes: Vec<String>) -> (r: Result<
        Vec<Product>,
        ProductTraitError,
    >)
        ensures
            match r {
                Ok(v) => views_of(v@) == selected(self.contents(), code_views(barcodes@)),
                Err(ProductTraitError::NotFound) => false,
                Err(ProductTraitError::DatabaseError(_)) => !self.reliable(),
            },
    ;
}

/// Every record a batch lookup returns carries a requested barcode: absent
/// codes contribute no entries.
pub proof fn lemma_selected_sound(s: Seq<ProductView>, codes: Seq<Seq<char>>)
    ensures
        forall|k: int|
            0 <= k < selected(s, codes).len() ==> code_listed(
                codes,
                (#[trigger] selected(s, codes)[k]).code,
            ),
    decreases s.len(),
{
    if s.len() > 0 {
        lemma_selected_sound(s.drop_last(), codes);
        let prefix = selected(s.drop_last(), codes);
        if code_listed(codes, s.last().code) {
            assert(selected(s, codes) == prefix.push(s.last()));
            assert forall|k: int| 0 <= k < selected(s, codes).len() implies code_listed(
                codes,
                (selected(s, codes)[k]).code,
            ) by {
                if k < prefix.len() {
                    assert(selected(s, codes)[k] == prefix[k]);
                } else {
                    assert(selected(s, codes)[k] == s.last());
                }
            }
        }
    }
}

/// Every record a batch lookup returns is a record of the store.
pub proof fn lemma_selected_from_store(s: Seq<ProductView>, codes: Seq<Seq<char>>)
    ensures
        forall|k: int|
            0 <= k < selected(s, codes).len() ==> exists|i: int|
                0 <= i < s.len() && s[i] == #[trigger] selected(s, codes)[k],
    decreases s.len(),
{
    if s.len() > 0 {
        lemma_selected_from_store(s.drop_last(), codes);
        let prefix = selected(s.drop_last(), codes);
        assert forall|k: int| 0 <= k < selected(s, codes).len() implies exists|i: int|
            0 <= i < s.len() && s[i] == #[trigger] selected(s, codes)[k] by {
            if k < prefix.len() {
                assert(selected(s, codes)[k] == prefix[k]);
                let i = choose|i: int| 0 <= i < s.drop_last().len() && s.drop_last()[i]
                    == prefix[k];
                assert(s[i] == s.drop_last()[i]);
            } else {
                assert(selected(s, codes)[k] == s.last());
                assert(s[s.len() - 1] == s.last());
            }
        }
    }
}

/// How many records of the store `s` carry a barcode among `codes`.
pub open spec fn matching_count(s: Seq<ProductView>, codes: Seq<Seq<char>>) -> nat
    decreases s.len(),
{
    if s.len() == 0 {
        0
    } else {
        matching_count(s.drop_last(), codes) + if code_listed(codes, s.last().code) {
            1nat
        } else {
            0nat
        }
    }
}

/// The number of records a batch lookup returns is exactly the number of
/// store records whose barcode was requested: one entry per matching store
/// record, none for the rest.
pub proof fn lemma_selected_counts_matches(s: Seq<ProductView>, codes: Seq<Seq<char>>)
    ensures
        selected(s, codes).len() == matching_count(s, codes),
    decreases s.len(),
{
    if s.len() > 0 {
        lemma_selected_counts_matches(s.drop_last(), codes);
    }
}

/// Repeating a barcode in a batch request changes nothing: the result
/// contains each matching record at most once, duplicates or not.
pub proof fn lemma_selected_duplicate_codes(
    s: Seq<ProductView>,
    codes: Seq<Seq<char>>,
    c: Seq<char>,
)
    requires
        code_listed(codes, c),
    ensures
        selected(s, codes.push(c)) == selected(s, codes),
    decreases s.len(),
{
    if s.len() > 0 {
        lemma_selected_duplicate_codes(s.drop_last(), codes, c);
        let code = s.last().code;
        if code_listed(codes.push(c), code) {
            let j = choose|j: int| 0 <= j < codes.push(c).len() && codes.push(c)[j] == code;
            if j < codes.len() {
                assert(codes[j] == code);
            } else {
                assert(codes.push(c)[j] == c);
            }
            assert(code_listed(codes, code));
        }
        if code_listed(codes, code) {
            let j = choose|j: int| 0 <= j < codes.len() && codes[j] == code;
            assert(codes.push(c)[j] == code);
            assert(code_listed(codes.push(c), code));
        }
    }
}

/// A batch lookup over an empty request returns no records at all.
pub proof fn lemma_selected_empty_request(s: Seq<ProductView>)
    ensures
        selected(s, Seq::empty()) == Seq::<ProductView>::empty(),
    decreases s.len(),
{
    if s.len() > 0 {
        lemma_selected_empty_request(s.drop_last());
    }
}

} // verus!

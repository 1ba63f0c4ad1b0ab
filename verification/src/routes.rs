use vstd::prelude::*;

use crate::product::Product;
use crate::product_trait::{
    code_views, has_code, is_first_match, selected, views_of, ProductTrait, ProductTraitError,
};

verus! {

/// What a lookup answers with: a single record, the records of a batch
/// lookup (rendered under `products_info`), or a plain JSON string message.
#[derive(Debug)]
pub enum ResponseBody {
    Product(Product),
    ProductList(Vec<Product>),
    Message(String),
}

/// An HTTP response as the handlers decide it: a status code and a body.
/// Rendering it on the wire is the listener's business, not the handlers'.
#[derive(Debug)]
pub struct HttpReply {
    pub status: u16,
    pub body: ResponseBody,
}

impl HttpReply {
    /// Whether this reply carries the plain string message `m`.
    pub open spec fn is_message(&self, m: Seq<char>) -> bool {
        self.body matches ResponseBody::Message(s) && s@ == m
    }
}

/// Maps the outcome of a single lookup to the HTTP response: the record as
/// is under 200, `NotFound` to a 404 message, and any store failure to a
/// 500 whose body is a fixed generic message — the same whatever the
/// diagnostic detail was, so nothing of the underlying error reaches the
/// client.
pub fn single_lookup_response(r: Result<Product, ProductTraitError>) -> (reply: HttpReply)
    ensures
        match r {
            Ok(p) => reply.status == 200 && reply.body == ResponseBody::Product(p),
            Err(ProductTraitError::NotFound) => reply.status == 404 && reply.is_message(
                "Product not found"@,
            ),
            Err(ProductTraitError::DatabaseError(_)) => reply.status == 500 && reply.is_message(
                "An error occurred"@,
            ),
        },
{
    match r {
        Ok(product) => HttpReply { status: 200, body: ResponseBody::Product(product) },
        Err(ProductTraitError::NotFound) => HttpReply {
            status: 404,
            body: ResponseBody::Message("Product not found".to_owned()),
        },
        Err(ProductTraitError::DatabaseError(_)) => HttpReply {
            status: 500,
            body: ResponseBody::Message("An error occurred".to_owned()),
        },
    }
}

/// Maps the outcome of a batch lookup to the HTTP response: the matching
/// records under 200 — an empty list is a 200, not an error — and any
/// failure to a 500 with the same fixed generic message. `NotFound` is not
/// produced on this path; should it ever surface, it too becomes a generic
/// 500 rather than leaking anything.
pub fn batch_lookup_response(r: Result<Vec<Product>, ProductTraitError>) -> (reply: HttpReply)
    ensures
        match r {
            Ok(v) => reply.status == 200 && reply.body == ResponseBody::ProductList(v),
            Err(_) => reply.status == 500 && reply.is_message("An error occurred"@),
        },
{
    match r {
        Ok(products) => HttpReply { status: 200, body: ResponseBody::ProductList(products) },
        Err(_) => HttpReply { status: 500, body: ResponseBody::Message("An error occurred".to_owned()) },
    }
}

/// The single-lookup handler: fetches the barcode's record through the
/// storage abstraction and renders the outcome. A 200 carries the first
/// record of the store with that barcode, a 404 comes exactly when the
/// store answered and had no match, and a 500 carries only the fixed
/// generic message. Against a backend that cannot fail, a present barcode
/// is owed its 200 and an absent one its 404.
pub fn product_info<T: ProductTrait>(db: &T, barcode: String) -> (reply: HttpReply)
    ensures
        reply.status == 200 || reply.status == 404 || reply.status == 500,
        reply.status == 200 ==> (reply.body matches ResponseBody::Product(p) && is_first_match(
            db.contents(),
            barcode@,
            p@,
        )),
        reply.status == 404 ==> !has_code(db.contents(), barcode@) && reply.is_message(
            "Product not found"@,
        ),
        reply.status == 500 ==> reply.is_message("An error occurred"@) && !db.reliable(),
        db.reliable() && has_code(db.contents(), barcode@) ==> reply.status == 200,
        db.reliable() && !has_code(db.contents(), barcode@) ==> reply.status == 404,
{
    single_lookup_response(db.get_product_info(barcode))
}

/// The batch-lookup handler: fetches every requested barcode's record
/// through the storage abstraction and renders the outcome. A 200 carries
/// exactly the store's records whose barcode was requested — empty when
/// none was — and a 500 carries only the fixed generic message. A backend
/// that cannot fail always answers 200, an empty request included.
pub fn get_products_list<T: ProductTrait>(db: &T, barcodes: Vec<String>) -> (reply: HttpReply)
    ensures
        reply.status == 200 || reply.status == 500,
        reply.status == 200 ==> (reply.body matches ResponseBody::ProductList(v) && views_of(v@)
            == selected(db.contents(), code_views(barcodes@))),
        reply.status == 500 ==> reply.is_message("An error occurred"@) && !db.reliable(),
        db.reliable() ==> reply.status == 200,
{
    batch_lookup_response(db.get_products_info(barcodes))
}

} // verus!

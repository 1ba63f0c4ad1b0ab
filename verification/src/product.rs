use vstd::prelude::*;

verus! {

/// Spec-level image of a product record: the five fields as character
/// sequences.
pub struct ProductView {
    pub code: Seq<char>,
    pub product_name: Seq<char>,
    pub nutriscore_grade: Seq<char>,
    pub ecoscore_grade: Seq<char>,
    pub nova_group: Seq<char>,
}

/// A food-product record as returned to clients. `code` is the barcode that
/// identifies the record; the four descriptive fields carry the sentinel
/// `"NA"` when the backing store had no value for them.
#[derive(Debug)]
pub struct Product {
    pub code: String,
    pub product_name: String,
    pub nutriscore_grade: String,
    pub ecoscore_grade: String,
    pub nova_group: String,
}

impl View for Product {
    type V = ProductView;

    open spec fn view(&self) -> ProductView {
        ProductView {
            code: self.code@,
            product_name: self.product_name@,
            nutriscore_grade: self.nutriscore_grade@,
            ecoscore_grade: self.ecoscore_grade@,
            nova_group: self.nova_group@,
        }
    }
}

impl Clone for Product {
    fn clone(&self) -> (r: Self)
        ensures
            r == *self,
    {
        Product {
            code: self.code.clone(),
            product_name: self.product_name.clone(),
            nutriscore_grade: self.nutriscore_grade.clone(),
            ecoscore_grade: self.ecoscore_grade.clone(),
            nova_group: self.nova_group.clone(),
        }
    }
}

/// The sentinel value substituted for a descriptive field that is absent
/// from the stored record.
pub fn na() -> (r: String)
    ensures
        r@ == "NA"@,
{
    "NA".to_owned()
}

/// What a possibly-absent descriptive field becomes in the returned record:
/// its own characters when present, the sentinel `"NA"` when absent.
pub open spec fn field_or_na(f: Option<String>) -> Seq<char> {
    match f {
        Some(s) => s@,
        None => "NA"@,
    }
}

impl Product {
    /// Builds the record returned to clients from a stored record in which
    /// any descriptive field may be missing. `code` has no default: a stored
    /// record without it is rejected before this point.
    pub fn from_record(
        code: String,
        product_name: Option<String>,
        nutriscore_grade: Option<String>,
        ecoscore_grade: Option<String>,
        nova_group: Option<String>,
    ) -> (p: Product)
        ensures
            p@.code == code@,
            p@.product_name == field_or_na(product_name),
            p@.nutriscore_grade == field_or_na(nutriscore_grade),
            p@.ecoscore_grade == field_or_na(ecoscore_grade),
            p@.nova_group == field_or_na(nova_group),
    {
        Product {
            code,
            product_name: match product_name {
                Some(s) => s,
                None => na(),
            },
            nutriscore_grade: match nutriscore_grade {
                Some(s) => s,
                None => na(),
            },
            ecoscore_grade: match ecoscore_grade {
                Some(s) => s,
                None => na(),
            },
            nova_group: match nova_group {
                Some(s) => s,
                None => na(),
            },
        }
    }
}

} // verus!

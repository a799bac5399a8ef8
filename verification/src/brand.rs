use vstd::prelude::*;
use vstd::string::StringExecFns;

verus! {

/// A registered brand: its identity, its display name (stored verbatim at
/// registration and immutable thereafter), and its activation flag. Every
/// brand is active at creation; no operation deactivates one.
pub struct Brand {
    pub brand_id: u64,
    pub brand_name: String,
    pub is_active: bool,
}

/// The mathematical image of a `Brand`: the name as a sequence of characters.
#[verifier::ext_equal]
pub struct BrandView {
    pub brand_id: u64,
    pub brand_name: Seq<char>,
    pub is_active: bool,
}

impl View for Brand {
    type V = BrandView;

    open spec fn view(&self) -> BrandView {
        BrandView {
            brand_id: self.brand_id,
            brand_name: self.brand_name@,
            is_active: self.is_active,
        }
    }
}

/// The record a lookup hands back for a brand id that was never assigned:
/// id zero, the name "Not_Found", and the inactive flag. Callers that need
/// existence inspect `is_active` or `brand_id == 0`.
pub open spec fn sentinel_view() -> BrandView {
    BrandView { brand_id: 0, brand_name: "Not_Found"@, is_active: false }
}

impl Brand {
    /// Builds the sentinel record for an unknown brand id.
    pub fn not_found() -> (brand: Brand)
        ensures
            brand@ == sentinel_view(),
    {
        Brand { brand_id: 0, brand_name: String::from_str("Not_Found"), is_active: false }
    }

    /// A field-wise copy. (A derived `Clone` would promise nothing about the
    /// copied name, so the registry copies records explicitly.)
    pub fn duplicate(&self) -> (copy: Brand)
        ensures
            copy@ == self@,
    {
        Brand {
            brand_id: self.brand_id,
            brand_name: self.brand_name.clone(),
            is_active: self.is_active,
        }
    }
}

/// Key space for brand records: one key per assigned brand id, disjoint by
/// construction from the balance key space.
#[derive(Clone, Copy, PartialEq, Eq, Structural)]
pub enum BrandBook {
    Brand(u64),
}

} // verus!

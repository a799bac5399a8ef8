use vstd::prelude::*;
use crate::brand::Brand;
use crate::brand::BrandBook;
use crate::brand::BrandView;
use crate::brand::sentinel_view;

verus! {

/// The Brand Registry: owns brand identity allocation and brand metadata.
/// Ids are allocated by a single monotonic counter, so the assigned ids form
/// a dense, gapless, caller-independent sequence 1, 2, ... Each record is
/// stored under its `BrandBook` key and never mutated or deleted afterwards.
pub struct BrandRegistry {
    entries: Vec<(BrandBook, Brand)>,
    count: u64,
}

impl BrandRegistry {
    /// Registry invariant: the counter is the high-water mark of assigned
    /// ids, and the record for id i sits at position i - 1, under the key
    /// `BrandBook::Brand(i)`, carrying that same id.
    pub closed spec fn wf(self) -> bool {
        &&& self.count as int == self.entries@.len()
        &&& forall|i: int|
            0 <= i < self.entries@.len() ==> (#[trigger] self.entries@[i]).0 == BrandBook::Brand(
                (i + 1) as u64,
            )
        &&& forall|i: int|
            0 <= i < self.entries@.len() ==> (#[trigger] self.entries@[i]).1.brand_id == i + 1
    }

    /// The current counter value: the number of brands ever registered.
    pub closed spec fn spec_count(self) -> u64 {
        self.count
    }

    /// The record a lookup yields for an id: the stored brand when the id
    /// was assigned, the sentinel otherwise.
    pub closed spec fn spec_brand(self, brand_id: u64) -> BrandView {
        if 1 <= brand_id <= self.count {
            self.entries@[brand_id - 1].1@
        } else {
            sentinel_view()
        }
    }

    /// An empty registry: no brands, counter at zero.
    pub fn new() -> (registry: BrandRegistry)
        ensures
            registry.wf(),
            registry.spec_count() == 0,
    {
        BrandRegistry { entries: Vec::new(), count: 0 }
    }

    /// Reads the counter, increments it, and stores a new active brand with
    /// the incremented value as its id. Accepts any name, stored verbatim;
    /// names need not be unique. Returns the new id.
    pub fn register(&mut self, brand_name: String) -> (brand_id: u64)
        requires
            old(self).wf(),
            old(self).spec_count() < u64::MAX,
        ensures
            final(self).wf(),
            brand_id == old(self).spec_count() + 1,
            final(self).spec_count() == brand_id,
            final(self).spec_brand(brand_id) == (BrandView {
                brand_id,
                brand_name: brand_name@,
                is_active: true,
            }),
            forall|b: u64|
                b != brand_id ==> final(self).spec_brand(b) == old(self).spec_brand(b),
    {
        let brand_id = self.count + 1;
        let record = Brand { brand_id, brand_name, is_active: true };
        self.entries.push((BrandBook::Brand(brand_id), record));
        self.count = brand_id;
        brand_id
    }

    /// Pure lookup: the stored record for an assigned id, the sentinel for
    /// any other id. Never fails.
    pub fn lookup(&self, brand_id: u64) -> (brand: Brand)
        requires
            self.wf(),
        ensures
            brand@ == self.spec_brand(brand_id),
    {
        if 1 <= brand_id && brand_id <= self.count {
            let stored = self.entries.len();
            assert(brand_id - 1 < stored);
            let position = (brand_id - 1) as usize;
            self.entries[position].1.duplicate()
        } else {
            Brand::not_found()
        }
    }

    /// The current counter value.
    pub fn total(&self) -> (count: u64)
        ensures
            count == self.spec_count(),
    {
        self.count
    }
}

/// In a well-formed registry the assigned ids are exactly 1 up to the
/// counter, each stored under itself; every other id yields the sentinel.
pub proof fn lemma_dense_ids(registry: BrandRegistry)
    requires
        registry.wf(),
    ensures
        forall|i: u64|
            1 <= i <= registry.spec_count() ==> (#[trigger] registry.spec_brand(i)).brand_id == i,
        forall|i: u64|
            !(1 <= i <= registry.spec_count()) ==> (#[trigger] registry.spec_brand(i))
                == sentinel_view(),
{
}

} // verus!

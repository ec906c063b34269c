use std::collections::HashMap;
use vstd::prelude::*;

use crate::slots::{copy_slots, same_slots, slots_view, Slot, SlotView};

verus! {

broadcast use vstd::std_specs::hash::group_hash_axioms;

/// Whether a scan result differs from what was last sent for the district:
/// true on first sighting, and whenever the slots differ in any field or in
/// their order.
pub open spec fn is_news(
    seen: Map<u16, Seq<SlotView>>,
    district_id: u16,
    result: Seq<SlotView>,
) -> bool {
    !(seen.contains_key(district_id) && seen[district_id] == result)
}

/// What is remembered after a scan result was checked: a novel result
/// replaces the district's entry, anything else leaves the cache alone.
pub open spec fn after_check(
    seen: Map<u16, Seq<SlotView>>,
    district_id: u16,
    result: Seq<SlotView>,
) -> Map<u16, Seq<SlotView>> {
    if is_news(seen, district_id, result) {
        seen.insert(district_id, result)
    } else {
        seen
    }
}

/// The last slot list sent for each district, kept for the life of the
/// process so that an unchanged result is not sent twice.
pub struct SeenCache {
    entries: HashMap<u16, Vec<Slot>>,
}

impl View for SeenCache {
    type V = Map<u16, Seq<SlotView>>;

    closed spec fn view(&self) -> Map<u16, Seq<SlotView>> {
        self.entries@.map_values(|v: Vec<Slot>| slots_view(v@))
    }
}

impl SeenCache {
    /// A cache that has seen nothing.
    pub fn new() -> (r: SeenCache)
        ensures
            r@ == Map::<u16, Seq<SlotView>>::empty(),
    {
        let r = SeenCache { entries: HashMap::new() };
        proof {
            assert(r@ =~= Map::<u16, Seq<SlotView>>::empty());
        }
        r
    }

    /// Checks a district's scan result against the last one sent and tells
    /// whether it is news. A novel result is remembered at once, before any
    /// message goes out, so that a failed delivery is not retried on the
    /// next round.
    pub fn is_novel(&mut self, district_id: u16, result: &Vec<Slot>) -> (r: bool)
        ensures
            r == is_news(old(self)@, district_id, slots_view(result@)),
            final(self)@ == after_check(old(self)@, district_id, slots_view(result@)),
    {
        assert(vstd::std_specs::hash::obeys_key_model::<u16>());
        let novel = match self.entries.get(&district_id) {
            Some(last) => !same_slots(last, result),
            None => true,
        };
        if novel {
            self.entries.insert(district_id, copy_slots(result));
            proof {
                assert(self@ =~= old(self)@.insert(district_id, slots_view(result@)));
            }
        }
        novel
    }
}

/// Sending the same result twice in a row: the second check is never news,
/// and the first is news when the district had not been seen.
pub proof fn lemma_repeat_is_not_news(
    seen: Map<u16, Seq<SlotView>>,
    district_id: u16,
    result: Seq<SlotView>,
)
    ensures
        !seen.contains_key(district_id) ==> is_news(seen, district_id, result),
        !is_news(after_check(seen, district_id, result), district_id, result),
{
}

/// A result that holds the same slots as the one remembered, in another
/// order, is news.
pub proof fn lemma_reordered_is_news(
    seen: Map<u16, Seq<SlotView>>,
    district_id: u16,
    first: Seq<SlotView>,
    second: Seq<SlotView>,
)
    requires
        first.to_multiset() == second.to_multiset(),
        first != second,
    ensures
        is_news(after_check(seen, district_id, first), district_id, second),
{
}

} // verus!

use vstd::prelude::*;

use crate::digits::{decimal, decimal_text};
use crate::feed::{Center, Root, Session};

verus! {

/// Sessions whose minimum age is this or more are for seniors only and never
/// reported.
pub const SENIOR_AGE_LIMIT: u64 = 45;

/// A capacity threshold that reports any session with two or more doses left.
pub const DEFAULT_CAPACITY_THRESHOLD: u64 = 1;

/// One reportable opening: the first eligible session of a center.
#[derive(Debug)]
pub struct Slot {
    pub center_name: String,
    pub pincode: String,
    pub available_capacity: String,
    pub vaccine_name: Option<String>,
    pub date: String,
}

/// What a `Slot` says, as text.
pub struct SlotView {
    pub center_name: Seq<char>,
    pub pincode: Seq<char>,
    pub available_capacity: Seq<char>,
    pub vaccine_name: Option<Seq<char>>,
    pub date: Seq<char>,
}

impl View for Slot {
    type V = SlotView;

    open spec fn view(&self) -> SlotView {
        SlotView {
            center_name: self.center_name@,
            pincode: self.pincode@,
            available_capacity: self.available_capacity@,
            vaccine_name: match self.vaccine_name {
                Some(v) => Some(v@),
                None => None,
            },
            date: self.date@,
        }
    }
}

/// The text of each slot of a sequence, in order.
pub open spec fn slots_view(s: Seq<Slot>) -> Seq<SlotView> {
    s.map_values(|x: Slot| x@)
}

impl Slot {
    /// Whether two slots say the same thing, field by field.
    pub fn same_as(&self, other: &Slot) -> (r: bool)
        ensures
            r == (self@ == other@),
    {
        let same_vaccine = match (&self.vaccine_name, &other.vaccine_name) {
            (Some(a), Some(b)) => *a == *b,
            (None, None) => true,
            _ => false,
        };
        self.center_name == other.center_name && self.pincode == other.pincode
            && self.available_capacity == other.available_capacity && same_vaccine && self.date
            == other.date
    }

    /// A slot that says the same as this one.
    pub fn copy(&self) -> (r: Slot)
        ensures
            r@ == self@,
    {
        let vaccine_name = match &self.vaccine_name {
            Some(v) => Some(v.clone()),
            None => None,
        };
        Slot {
            center_name: self.center_name.clone(),
            pincode: self.pincode.clone(),
            available_capacity: self.available_capacity.clone(),
            vaccine_name,
            date: self.date.clone(),
        }
    }
}

/// Whether two slot lists say the same thing, slot by slot and in order.
pub fn same_slots(a: &Vec<Slot>, b: &Vec<Slot>) -> (r: bool)
    ensures
        r == (slots_view(a@) == slots_view(b@)),
{
    if a.len() != b.len() {
        proof {
            assert(slots_view(a@).len() != slots_view(b@).len());
        }
        return false;
    }
    let n = a.len();
    let mut i: usize = 0;
    while i < n
        invariant
            n == a@.len() == b@.len(),
            i <= n,
            forall|j: int| 0 <= j < i ==> a@[j]@ == b@[j]@,
        decreases n - i,
    {
        if !a[i].same_as(&b[i]) {
            proof {
                assert(slots_view(a@)[i as int] != slots_view(b@)[i as int]);
            }
            return false;
        }
        i = i + 1;
    }
    proof {
        assert(slots_view(a@) =~= slots_view(b@));
    }
    true
}

/// A slot list that says the same as `v`.
pub fn copy_slots(v: &Vec<Slot>) -> (r: Vec<Slot>)
    ensures
        slots_view(r@) == slots_view(v@),
{
    let mut out: Vec<Slot> = Vec::new();
    let n = v.len();
    let mut i: usize = 0;
    while i < n
        invariant
            n == v@.len(),
            i <= n,
            out@.len() == i,
            forall|j: int| 0 <= j < i ==> out@[j]@ == v@[j]@,
        decreases n - i,
    {
        out.push(v[i].copy());
        i = i + 1;
    }
    proof {
        assert(slots_view(out@) =~= slots_view(v@));
    }
    out
}

/// A session is worth reporting when it is open to people under the senior
/// age limit and has more than `threshold` doses left.
pub open spec fn eligible(s: Session, threshold: u64) -> bool {
    s.min_age_limit < SENIOR_AGE_LIMIT && s.available_capacity > threshold
}

/// The index of the first eligible session at or after `i`, if any.
pub open spec fn first_eligible_from(ss: Seq<Session>, threshold: u64, i: int) -> Option<int>
    decreases ss.len() - i,
{
    if i < 0 || i >= ss.len() {
        None
    } else if eligible(ss[i], threshold) {
        Some(i)
    } else {
        first_eligible_from(ss, threshold, i + 1)
    }
}

/// The slot that a center and one of its sessions make.
pub open spec fn slot_of(c: Center, s: Session) -> SlotView {
    SlotView {
        center_name: c.name@,
        pincode: decimal_text(c.pincode as nat),
        available_capacity: decimal_text(s.available_capacity as nat),
        vaccine_name: if s.vaccine@.len() == 0 { None } else { Some(s.vaccine@) },
        date: s.date@,
    }
}

/// The slot a center yields: that of its first eligible session, if any.
pub open spec fn center_slot(c: Center, threshold: u64) -> Option<SlotView> {
    match first_eligible_from(c.sessions@, threshold, 0) {
        Some(k) => Some(slot_of(c, c.sessions@[k])),
        None => None,
    }
}

/// The slots of a list of centers: at most one per center, in feed order.
pub open spec fn slots_of(cs: Seq<Center>, threshold: u64) -> Seq<SlotView>
    decreases cs.len(),
{
    if cs.len() == 0 {
        Seq::empty()
    } else {
        let rest = slots_of(cs.drop_last(), threshold);
        match center_slot(cs.last(), threshold) {
            Some(v) => rest.push(v),
            None => rest,
        }
    }
}

proof fn lemma_first_eligible_found(ss: Seq<Session>, threshold: u64, i: int)
    ensures
        match first_eligible_from(ss, threshold, i) {
            Some(k) => i <= k < ss.len() && eligible(ss[k], threshold),
            None => true,
        },
    decreases ss.len() - i,
{
    if 0 <= i < ss.len() && !eligible(ss[i], threshold) {
        lemma_first_eligible_found(ss, threshold, i + 1);
    }
}

proof fn lemma_first_eligible_is(ss: Seq<Session>, threshold: u64, i: int, k: int)
    requires
        0 <= i <= k < ss.len(),
        eligible(ss[k], threshold),
        forall|j: int| 0 <= j < k ==> !eligible(#[trigger] ss[j], threshold),
    ensures
        first_eligible_from(ss, threshold, i) == Some(k),
    decreases k - i,
{
    if i < k {
        lemma_first_eligible_is(ss, threshold, i + 1, k);
    }
}

/// Every slot that a list of centers yields was built from an eligible
/// session of one of them.
pub proof fn lemma_slots_come_from_eligible_sessions(cs: Seq<Center>, threshold: u64)
    ensures
        forall|j: int|
            0 <= j < slots_of(cs, threshold).len() ==> exists|i: int, k: int|
                0 <= i < cs.len() && 0 <= k < cs[i].sessions@.len() && eligible(
                    cs[i].sessions@[k],
                    threshold,
                ) && #[trigger] slots_of(cs, threshold)[j] == slot_of(cs[i], cs[i].sessions@[k]),
    decreases cs.len(),
{
    if cs.len() > 0 {
        let front = cs.drop_last();
        lemma_slots_come_from_eligible_sessions(front, threshold);
        lemma_first_eligible_found(cs.last().sessions@, threshold, 0);
        let all = slots_of(cs, threshold);
        let rest = slots_of(front, threshold);
        assert forall|j: int| 0 <= j < all.len() implies exists|i: int, k: int|
            0 <= i < cs.len() && 0 <= k < cs[i].sessions@.len() && eligible(
                cs[i].sessions@[k],
                threshold,
            ) && #[trigger] all[j] == slot_of(cs[i], cs[i].sessions@[k]) by {
            if j < rest.len() {
                assert(all[j] == rest[j]);
                let (i, k) = choose|i: int, k: int|
                    0 <= i < front.len() && 0 <= k < front[i].sessions@.len() && eligible(
                        front[i].sessions@[k],
                        threshold,
                    ) && #[trigger] rest[j] == slot_of(front[i], front[i].sessions@[k]);
                assert(cs[i] == front[i]);
            } else {
                let i = cs.len() - 1;
                let k = first_eligible_from(cs[i].sessions@, threshold, 0)->Some_0;
                assert(cs[i] == cs.last());
                assert(all[j] == slot_of(cs[i], cs[i].sessions@[k]));
            }
        }
    }
}

/// No slot is ever built from a session for seniors only: each slot comes
/// from a session whose minimum age is under the senior age limit.
pub proof fn lemma_no_slot_from_senior_sessions(cs: Seq<Center>, threshold: u64)
    ensures
        forall|j: int|
            0 <= j < slots_of(cs, threshold).len() ==> exists|i: int, k: int|
                0 <= i < cs.len() && 0 <= k < cs[i].sessions@.len()
                    && cs[i].sessions@[k].min_age_limit < SENIOR_AGE_LIMIT
                    && #[trigger] slots_of(cs, threshold)[j] == slot_of(cs[i], cs[i].sessions@[k]),
{
    lemma_slots_come_from_eligible_sessions(cs, threshold);
}

/// No slot is ever built from a session at or below the capacity threshold:
/// each slot comes from a session with more doses left than the threshold.
pub proof fn lemma_no_slot_from_low_capacity(cs: Seq<Center>, threshold: u64)
    ensures
        forall|j: int|
            0 <= j < slots_of(cs, threshold).len() ==> exists|i: int, k: int|
                0 <= i < cs.len() && 0 <= k < cs[i].sessions@.len()
                    && cs[i].sessions@[k].available_capacity > threshold
                    && #[trigger] slots_of(cs, threshold)[j] == slot_of(cs[i], cs[i].sessions@[k]),
{
    lemma_slots_come_from_eligible_sessions(cs, threshold);
}

/// A center with at least one eligible session yields exactly one slot, built
/// from the first eligible session in feed order.
pub proof fn lemma_one_slot_per_center(c: Center, threshold: u64, k: int)
    requires
        0 <= k < c.sessions@.len(),
        eligible(c.sessions@[k], threshold),
        forall|j: int| 0 <= j < k ==> !eligible(#[trigger] c.sessions@[j], threshold),
    ensures
        slots_of(seq![c], threshold) == seq![slot_of(c, c.sessions@[k])],
{
    lemma_first_eligible_is(c.sessions@, threshold, 0, k);
    let cs = seq![c];
    assert(cs.drop_last() =~= Seq::<Center>::empty());
    assert(slots_of(Seq::<Center>::empty(), threshold) == Seq::<SlotView>::empty());
    assert(slots_of(cs, threshold) =~= seq![slot_of(c, c.sessions@[k])]);
}

/// Decides whether a session is worth reporting.
pub fn is_eligible(session: &Session, threshold: u64) -> (r: bool)
    ensures
        r == eligible(*session, threshold),
{
    session.min_age_limit < SENIOR_AGE_LIMIT && session.available_capacity > threshold
}

/// Builds the slot of a center from one of its sessions; an empty vaccine name
/// becomes `None`.
pub fn slot_from(center: &Center, session: &Session) -> (r: Slot)
    ensures
        r@ == slot_of(*center, *session),
{
    let vaccine_name = if session.vaccine.as_str().is_empty() {
        None
    } else {
        Some(session.vaccine.clone())
    };
    Slot {
        center_name: center.name.clone(),
        pincode: decimal(center.pincode),
        available_capacity: decimal(session.available_capacity),
        vaccine_name,
        date: session.date.clone(),
    }
}

/// The slot of a center: built from its first eligible session, in feed order;
/// the sessions after it are not looked at.
pub fn first_slot(center: &Center, threshold: u64) -> (r: Option<Slot>)
    ensures
        match r {
            Some(s) => center_slot(*center, threshold) == Some(s@),
            None => center_slot(*center, threshold).is_none(),
        },
{
    let n = center.sessions.len();
    let mut i: usize = 0;
    while i < n
        invariant
            n == center.sessions@.len(),
            i <= n,
            first_eligible_from(center.sessions@, threshold, 0)
                == first_eligible_from(center.sessions@, threshold, i as int),
        decreases n - i,
    {
        if is_eligible(&center.sessions[i], threshold) {
            return Some(slot_from(center, &center.sessions[i]));
        }
        i = i + 1;
    }
    None
}

/// The slots of one feed answer: at most one per center, in feed order.
pub fn eligible_slots(root: &Root, threshold: u64) -> (r: Vec<Slot>)
    ensures
        slots_view(r@) == slots_of(root.centers@, threshold),
{
    let mut out: Vec<Slot> = Vec::new();
    let n = root.centers.len();
    let mut i: usize = 0;
    while i < n
        invariant
            n == root.centers@.len(),
            i <= n,
            slots_view(out@) == slots_of(root.centers@.take(i as int), threshold),
        decreases n - i,
    {
        let found = first_slot(&root.centers[i], threshold);
        proof {
            let cs = root.centers@.take(i as int + 1);
            assert(cs.drop_last() =~= root.centers@.take(i as int));
            assert(cs.last() == root.centers@[i as int]);
        }
        let ghost before = out@;
        match found {
            Some(s) => {
                out.push(s);
                proof {
                    assert(slots_view(out@) =~= slots_view(before).push(s@));
                }
            },
            None => {},
        }
        i = i + 1;
    }
    proof {
        assert(root.centers@.take(n as int) =~= root.centers@);
    }
    out
}

} // verus!

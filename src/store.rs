//! The home store: one slot per record address.

use vstd::prelude::*;

use crate::keys::same_key;
use crate::state::AccountSlot;

verus! {

/// The map from address to slot that a sequence of slots spells; a later
/// slot at an address replaces an earlier one.
pub open spec fn slots_map(s: Seq<AccountSlot>) -> Map<Seq<u8>, AccountSlot>
    decreases s.len(),
{
    if s.len() == 0 {
        Map::empty()
    } else {
        slots_map(s.drop_last()).insert(s.last().address@, s.last())
    }
}

pub open spec fn unique_addresses(s: Seq<AccountSlot>) -> bool {
    forall|i: int, j: int| 0 <= i < j < s.len() ==> s[i].address@ != s[j].address@
}

proof fn lemma_slots_map(s: Seq<AccountSlot>, a: Seq<u8>)
    requires
        unique_addresses(s),
    ensures
        slots_map(s).contains_key(a) <==> exists|i: int| 0 <= i < s.len() && s[i].address@ == a,
        forall|i: int| 0 <= i < s.len() && s[i].address@ == a ==> slots_map(s)[a] == s[i],
    decreases s.len(),
{
    if s.len() > 0 {
        let t = s.drop_last();
        let n = s.len() - 1;
        assert(unique_addresses(t));
        lemma_slots_map(t, a);
        if slots_map(s).contains_key(a) {
            if s[n].address@ != a {
                let i = choose|i: int| 0 <= i < t.len() && t[i].address@ == a;
                assert(s[i].address@ == a);
            } else {
                assert(s[n].address@ == a);
            }
        }
        assert forall|i: int| 0 <= i < s.len() && s[i].address@ == a implies slots_map(s).contains_key(a)
            && slots_map(s)[a] == s[i] by {
            if i < n {
                assert(t[i].address@ == a);
                assert(s[n].address@ != a);
            }
        }
    }
}

/// The records of the home store, each at its own address.
pub struct AccountStore {
    slots: Vec<AccountSlot>,
}

impl View for AccountStore {
    type V = Map<Seq<u8>, AccountSlot>;

    closed spec fn view(&self) -> Map<Seq<u8>, AccountSlot> {
        slots_map(self.slots@)
    }
}

impl AccountStore {
    /// Each address holds one slot, and each slot is well formed.
    pub closed spec fn wf(&self) -> bool {
        &&& unique_addresses(self.slots@)
        &&& forall|i: int| 0 <= i < self.slots@.len() ==> (#[trigger] self.slots@[i]).wf()
    }

    /// A store that holds no record.
    pub fn new() -> (r: AccountStore)
        ensures
            r.wf(),
            r@ == Map::<Seq<u8>, AccountSlot>::empty(),
    {
        AccountStore { slots: Vec::new() }
    }

    fn position(&self, address: &[u8; 32]) -> (r: Option<usize>)
        requires
            self.wf(),
        ensures
            r matches Some(i) ==> i < self.slots@.len() && self.slots@[i as int].address@ == address@,
            r is None ==> forall|i: int| 0 <= i < self.slots@.len() ==> self.slots@[i].address@ != address@,
    {
        let mut i: usize = 0;
        while i < self.slots.len()
            invariant
                i <= self.slots@.len(),
                forall|j: int| 0 <= j < i ==> self.slots@[j].address@ != address@,
            decreases self.slots@.len() - i,
        {
            if same_key(&self.slots[i].address, address) {
                return Some(i);
            }
            i = i + 1;
        }
        None
    }

    /// The slot at `address`; an empty one where the store has none.
    pub fn slot(&self, address: &[u8; 32]) -> (r: AccountSlot)
        requires
            self.wf(),
        ensures
            r.wf(),
            self@.contains_key(address@) ==> r == self@[address@],
            !self@.contains_key(address@) ==> r.address == *address && r.home is None && r.rollup is None,
    {
        proof {
            lemma_slots_map(self.slots@, address@);
        }
        match self.position(address) {
            Some(i) => self.slots[i],
            None => AccountSlot::empty(*address),
        }
    }

    /// Stores `slot` at its address, in place of what was there.
    pub fn put(&mut self, slot: AccountSlot)
        requires
            old(self).wf(),
            slot.wf(),
        ensures
            final(self).wf(),
            final(self)@ == old(self)@.insert(slot.address@, slot),
    {
        let ghost s = self.slots@;
        let ghost a = slot.address@;
        match self.position(&slot.address) {
            Some(i) => {
                self.slots.set(i, slot);
                let ghost t = self.slots@;
                assert(t == s.update(i as int, slot));
                assert(unique_addresses(t));
                assert forall|k: Seq<u8>|
                    (#[trigger] slots_map(t).contains_key(k) <==> slots_map(s).insert(a, slot).contains_key(k))
                        && (slots_map(t).contains_key(k) ==> slots_map(t)[k] == slots_map(s).insert(a, slot)[k]) by {
                    lemma_slots_map(s, k);
                    lemma_slots_map(t, k);
                    if k == a {
                        assert(t[i as int].address@ == k);
                    } else {
                        if slots_map(s).contains_key(k) {
                            let j = choose|j: int| 0 <= j < s.len() && s[j].address@ == k;
                            assert(t[j].address@ == k);
                        }
                        if slots_map(t).contains_key(k) {
                            let j = choose|j: int| 0 <= j < t.len() && t[j].address@ == k;
                            assert(s[j].address@ == k);
                        }
                    }
                }
                assert(slots_map(t) =~= slots_map(s).insert(a, slot));
            },
            None => {
                self.slots.push(slot);
                assert(self.slots@.drop_last() =~= s);
            },
        }
    }
}

} // verus!

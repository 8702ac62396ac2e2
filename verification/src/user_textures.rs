//! The user texture registry.
//!
//! A sparse table of descriptor bindings for externally owned textures.
//! Registration finds the lowest-index free slot (or appends a new one) and
//! stores the binding there; unregistration frees the slot and hands the
//! binding back so the host can release it.  The caller owns the underlying
//! view and sampler and must keep them alive while the slot is occupied.
use vstd::prelude::*;

verus! {

/// The lowest index holding a free slot, or the table's length when every
/// slot is occupied.
pub open spec fn spec_lowest_free(s: Seq<Option<u64>>) -> int
    decreases s.len(),
{
    if s.len() == 0 {
        0
    } else if s[0] is None {
        0
    } else {
        1 + spec_lowest_free(s.drop_first())
    }
}

/// How registration transforms the table: the binding lands in the lowest
/// free slot, a fresh slot being appended when none is free.
pub open spec fn spec_register(s: Seq<Option<u64>>, binding: u64) -> Seq<Option<u64>> {
    let i = spec_lowest_free(s);
    if i < s.len() {
        s.update(i, Some(binding))
    } else {
        s.push(Some(binding))
    }
}

/// How unregistration transforms the table: the slot becomes free; a slot
/// index out of range changes nothing.
pub open spec fn spec_unregister(s: Seq<Option<u64>>, i: int) -> Seq<Option<u64>> {
    if 0 <= i < s.len() {
        s.update(i, None)
    } else {
        s
    }
}

/// The binding in a slot, if the index is in range and the slot occupied.
pub open spec fn spec_lookup(s: Seq<Option<u64>>, i: int) -> Option<u64> {
    if 0 <= i < s.len() {
        s[i]
    } else {
        None
    }
}

/// The lowest free index is the unique position with every earlier slot
/// occupied and, when in range, a free slot at the position itself.
pub proof fn lemma_lowest_free_characterization(s: Seq<Option<u64>>, i: int)
    requires
        0 <= i <= s.len(),
        forall|j: int| 0 <= j < i ==> s[j] is Some,
        i < s.len() ==> s[i] is None,
    ensures
        spec_lowest_free(s) == i,
    decreases i,
{
    if i == 0 {
    } else {
        assert(forall|j: int| 0 <= j < i - 1 ==> s.drop_first()[j] == s[j + 1]);
        if i < s.len() {
            assert(s.drop_first()[i - 1] == s[i]);
        }
        lemma_lowest_free_characterization(s.drop_first(), i - 1);
    }
}

/// The lowest free index lies within the table (or just past it), every
/// slot before it is occupied, and when in range it is itself free.
pub proof fn lemma_lowest_free_bounds(s: Seq<Option<u64>>)
    ensures
        0 <= spec_lowest_free(s) <= s.len(),
        forall|j: int| 0 <= j < spec_lowest_free(s) ==> s[j] is Some,
        spec_lowest_free(s) < s.len() ==> s[spec_lowest_free(s)] is None,
    decreases s.len(),
{
    if s.len() > 0 && !(s[0] is None) {
        lemma_lowest_free_bounds(s.drop_first());
        assert(forall|j: int| 0 <= j < s.len() - 1 ==> s.drop_first()[j] == s[j + 1]);
        assert forall|j: int| 0 <= j < spec_lowest_free(s) implies s[j] is Some by {
            if j > 0 {
                assert(s.drop_first()[j - 1] is Some);
            }
        }
    }
}

/// The registry of user textures.
pub struct UserTextureRegistry {
    slots: Vec<Option<u64>>,
}

impl UserTextureRegistry {
    /// The table of slots: `Some(binding)` for occupied, `None` for free.
    pub closed spec fn slots_seq(self) -> Seq<Option<u64>> {
        self.slots@
    }

    /// An empty registry.
    pub fn new() -> (r: Self)
        ensures
            r.slots_seq() == Seq::<Option<u64>>::empty(),
    {
        UserTextureRegistry { slots: Vec::new() }
    }

    /// Number of slots, occupied or free.
    pub fn slot_count(&self) -> (r: usize)
        ensures
            r == self.slots_seq().len(),
    {
        self.slots.len()
    }

    /// Store a descriptor binding in the lowest-index free slot, appending
    /// one when every slot is occupied, and return the slot's index: the
    /// user texture id.
    pub fn register(&mut self, binding: u64) -> (slot: u64)
        ensures
            final(self).slots_seq() == spec_register(old(self).slots_seq(), binding),
            slot == spec_lowest_free(old(self).slots_seq()),
            slot <= old(self).slots_seq().len(),
            forall|j: int| 0 <= j < slot ==> old(self).slots_seq()[j] is Some,
            slot < old(self).slots_seq().len() ==> old(self).slots_seq()[slot as int] is None,
            spec_lookup(final(self).slots_seq(), slot as int) == Some(binding),
    {
        let mut i: usize = 0;
        while i < self.slots.len()
            invariant
                i <= self.slots@.len(),
                forall|j: int| 0 <= j < i ==> self.slots@[j] is Some,
            ensures
                i <= self.slots@.len(),
                forall|j: int| 0 <= j < i ==> self.slots@[j] is Some,
                i < self.slots@.len() ==> self.slots@[i as int] is None,
            decreases self.slots@.len() - i,
        {
            if self.slots[i].is_none() {
                break ;
            }
            i = i + 1;
        }
        proof {
            lemma_lowest_free_characterization(self.slots@, i as int);
        }
        if i < self.slots.len() {
            self.slots.set(i, Some(binding));
        } else {
            self.slots.push(Some(binding));
        }
        i as u64
    }

    /// Free the slot and hand back its binding for the host to release.
    /// A slot that is already free, or an index out of range, is a no-op
    /// and returns nothing.
    pub fn unregister(&mut self, slot: u64) -> (r: Option<u64>)
        ensures
            final(self).slots_seq() == spec_unregister(old(self).slots_seq(), slot as int),
            r == spec_lookup(old(self).slots_seq(), slot as int),
    {
        if slot < self.slots.len() as u64 {
            let i = slot as usize;
            let binding = self.slots[i];
            self.slots.set(i, None);
            binding
        } else {
            proof {
                assert(self.slots@ =~= spec_unregister(self.slots@, slot as int));
            }
            None
        }
    }

    /// The binding stored in the slot, if the index is in range and the
    /// slot occupied.
    pub fn lookup(&self, slot: u64) -> (r: Option<u64>)
        ensures
            r == spec_lookup(self.slots_seq(), slot as int),
    {
        if slot < self.slots.len() as u64 {
            self.slots[slot as usize]
        } else {
            None
        }
    }
}

} // verus!

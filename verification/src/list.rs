//! The reorderable cue collection: an indexed, ordered sequence of cue
//! records. Positional order is maintained independently of key order:
//! moves never touch a cue's key, and key mutations never touch position.
//! Index-based operations silently ignore an out-of-range index.

use vstd::prelude::*;

use crate::cue::{dec_key, inc_key, CueNumber};

verus! {

/// One entry of the cue list: a stable identity assigned at creation, the
/// ordering key, and an opaque label payload.
#[derive(Debug)]
pub struct Cue {
    /// Stable across position and key changes; never reused within one list.
    pub id: u64,
    /// The two-level ordering key; starts fully unset.
    pub number: CueNumber,
    /// Opaque payload; the collection never inspects it.
    pub label: String,
}

/// No two cues of the sequence share an identity.
pub open spec fn distinct_ids(s: Seq<Cue>) -> bool {
    forall|i: int, j: int|
        0 <= i < s.len() && 0 <= j < s.len() && i != j ==> (#[trigger] s[i]).id != (
        #[trigger] s[j]).id
}

/// Every identity of the sequence lies below `bound`.
pub open spec fn ids_below(s: Seq<Cue>, bound: u64) -> bool {
    forall|i: int| 0 <= i < s.len() ==> (#[trigger] s[i]).id < bound
}

/// A sequence with the elements at `i` and `j` exchanged.
pub open spec fn swapped(s: Seq<Cue>, i: int, j: int) -> Seq<Cue> {
    s.update(i, s[j]).update(j, s[i])
}

/// Exchanging two positions twice restores the sequence.
pub proof fn lemma_swap_involution(s: Seq<Cue>, i: int, j: int)
    requires
        0 <= i < s.len(),
        0 <= j < s.len(),
    ensures
        swapped(swapped(s, i, j), i, j) == s,
{
    assert(swapped(swapped(s, i, j), i, j) =~= s);
}

/// An ordered sequence of cues, indexed from 0, together with the counter
/// that hands out fresh identities.
pub struct CueList {
    cues: Vec<Cue>,
    next_id: u64,
}

impl View for CueList {
    type V = Seq<Cue>;

    /// The collection viewed as the sequence of its cues in positional
    /// order.
    closed spec fn view(&self) -> Seq<Cue> {
        self.cues@
    }
}

impl CueList {
    /// The value the identity counter currently holds; identities already
    /// handed out all lie below it.
    pub closed spec fn id_counter(&self) -> u64 {
        self.next_id
    }

    /// Well-formedness: identities are pairwise distinct and all lie below
    /// the identity counter, so a fresh identity can never collide.
    pub open spec fn wf(&self) -> bool {
        distinct_ids(self@) && ids_below(self@, self.id_counter())
    }

    /// An empty cue list.
    pub fn new() -> (r: CueList)
        ensures
            r.wf(),
            r@ =~= Seq::<Cue>::empty(),
            r.id_counter() == 0,
    {
        CueList { cues: Vec::new(), next_id: 0 }
    }

    /// How many cues the list holds.
    pub fn len(&self) -> (r: usize)
        ensures
            r == self@.len(),
    {
        self.cues.len()
    }

    /// Whether another cue can still be created: the identity counter has
    /// not reached its ceiling.
    pub fn can_create(&self) -> (r: bool)
        ensures
            r == (self.id_counter() < u64::MAX),
    {
        self.next_id < u64::MAX
    }

    /// The cue at `index`, or nothing when the index is out of range.
    pub fn get(&self, index: usize) -> (r: Option<&Cue>)
        ensures
            index < self@.len() ==> (r matches Some(c) && *c == self@[index as int]),
            index >= self@.len() ==> r is None,
    {
        if index < self.cues.len() {
            Some(&self.cues[index])
        } else {
            None
        }
    }

    /// Creates a new cue with a fresh identity, a fully unset key, and the
    /// given label, at the end of the list, and returns its identity. The
    /// identity is distinct from that of every cue already in the list.
    pub fn create_cue(&mut self, label: String) -> (r: u64)
        requires
            old(self).wf(),
            old(self).id_counter() < u64::MAX,
        ensures
            final(self).wf(),
            r == old(self).id_counter(),
            final(self).id_counter() == old(self).id_counter() + 1,
            final(self)@ == old(self)@.push(
                (Cue { id: r, number: CueNumber(None, None), label: label }),
            ),
            forall|i: int| 0 <= i < old(self)@.len() ==> (#[trigger] old(self)@[i]).id != r,
    {
        let id = self.next_id;
        self.next_id = self.next_id + 1;
        let cue = Cue { id, number: CueNumber::new(), label };
        self.cues.push(cue);
        id
    }

    /// Removes the cue at `index`; later cues shift down one position. An
    /// out-of-range index leaves the list unchanged.
    pub fn remove_cue(&mut self, index: usize)
        requires
            old(self).wf(),
        ensures
            final(self).wf(),
            final(self).id_counter() == old(self).id_counter(),
            index < old(self)@.len() ==> final(self)@ == old(self)@.remove(index as int),
            index >= old(self)@.len() ==> *final(self) == *old(self),
    {
        if index < self.cues.len() {
            self.cues.remove(index);
        }
    }

    /// Moves the cue at `index` to position 0; the cues before it shift up
    /// one position. Index 0 and an out-of-range index leave the list
    /// unchanged.
    pub fn move_to_front(&mut self, index: usize)
        requires
            old(self).wf(),
        ensures
            final(self).wf(),
            final(self).id_counter() == old(self).id_counter(),
            0 < index < old(self)@.len() ==> final(self)@ == old(self)@.remove(
                index as int,
            ).insert(0, old(self)@[index as int]),
            index == 0 || index >= old(self)@.len() ==> *final(self) == *old(self),
    {
        if index != 0 && index < self.cues.len() {
            let cue = self.cues.remove(index);
            self.cues.insert(0, cue);
        }
    }

    /// Exchanges the cue at `index` with its predecessor. Index 0 and an
    /// out-of-range index leave the list unchanged.
    pub fn move_up(&mut self, index: usize)
        requires
            old(self).wf(),
        ensures
            final(self).wf(),
            final(self).id_counter() == old(self).id_counter(),
            0 < index < old(self)@.len() ==> final(self)@ == swapped(
                old(self)@,
                index - 1,
                index as int,
            ),
            index == 0 || index >= old(self)@.len() ==> *final(self) == *old(self),
    {
        if index != 0 && index < self.cues.len() {
            let cue = self.cues.remove(index);
            self.cues.insert(index - 1, cue);
            proof {
                assert(self.cues@ =~= swapped(old(self)@, index - 1, index as int));
            }
        }
    }

    /// Exchanges the cue at `index` with its successor. The last position
    /// and an out-of-range index leave the list unchanged.
    pub fn move_down(&mut self, index: usize)
        requires
            old(self).wf(),
        ensures
            final(self).wf(),
            final(self).id_counter() == old(self).id_counter(),
            index + 1 < old(self)@.len() ==> final(self)@ == swapped(
                old(self)@,
                index as int,
                index + 1,
            ),
            index + 1 >= old(self)@.len() ==> *final(self) == *old(self),
    {
        if index < self.cues.len() && index + 1 < self.cues.len() {
            let cue = self.cues.remove(index);
            self.cues.insert(index + 1, cue);
            proof {
                assert(self.cues@ =~= swapped(old(self)@, index as int, index + 1));
            }
        }
    }

    /// Bumps the key of the cue at `index`, per `inc_key`: its position,
    /// identity and label are untouched, as is every other cue. An
    /// out-of-range index leaves the list unchanged.
    pub fn increment_key(&mut self, index: usize)
        requires
            old(self).wf(),
        ensures
            final(self).wf(),
            final(self).id_counter() == old(self).id_counter(),
            index < old(self)@.len() ==> final(self)@ == old(self)@.update(
                index as int,
                (Cue {
                    id: old(self)@[index as int].id,
                    number: inc_key(old(self)@[index as int].number),
                    label: old(self)@[index as int].label,
                }),
            ),
            index >= old(self)@.len() ==> *final(self) == *old(self),
    {
        if index < self.cues.len() {
            let mut cue = self.cues.remove(index);
            cue.number = cue.number.incremented();
            self.cues.insert(index, cue);
            proof {
                assert(self.cues@ =~= old(self)@.update(index as int, self.cues@[index as int]));
            }
        }
    }

    /// Lowers the key of the cue at `index`, per `dec_key`: its position,
    /// identity and label are untouched, as is every other cue. An
    /// out-of-range index leaves the list unchanged.
    pub fn decrement_key(&mut self, index: usize)
        requires
            old(self).wf(),
        ensures
            final(self).wf(),
            final(self).id_counter() == old(self).id_counter(),
            index < old(self)@.len() ==> final(self)@ == old(self)@.update(
                index as int,
                (Cue {
                    id: old(self)@[index as int].id,
                    number: dec_key(old(self)@[index as int].number),
                    label: old(self)@[index as int].label,
                }),
            ),
            index >= old(self)@.len() ==> *final(self) == *old(self),
    {
        if index < self.cues.len() {
            let mut cue = self.cues.remove(index);
            cue.number = cue.number.decremented();
            self.cues.insert(index, cue);
            proof {
                assert(self.cues@ =~= old(self)@.update(index as int, self.cues@[index as int]));
            }
        }
    }
}

} // verus!

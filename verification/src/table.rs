//! A runtime that lives in the host's own memory.
//!
//! Every path sits in a slot of a table, with its text and the number of references
//! that are out. The bytes of a value are the number of its slot. A slot whose count
//! has fallen to zero is free: it gives up its text at once, and is the first to be
//! given out again.

use vstd::prelude::*;
use vstd::bytes::{
    lemma_auto_spec_u64_to_from_le_bytes, spec_u64_from_le_bytes, spec_u64_to_le_bytes,
    u64_from_le_bytes, u64_to_le_bytes,
};
use crate::heap::{acquire, live, refs_of, release, Cell, Heap};
use crate::opaque::Opaque;
use crate::runtime::Runtime;
use crate::string::GString;

verus! {

/// One place in the table.
struct Slot {
    text: String,
    refs: u32,
}

/// The table of slots.
pub struct Table {
    slots: Vec<Slot>,
}

/// The number of the slot that the bytes of `o` name.
pub closed spec fn slot_of(o: Opaque) -> int {
    spec_u64_from_le_bytes(o.bytes()) as int
}

/// Different values name different slots.
pub proof fn slot_of_injective(a: Opaque, b: Opaque)
    requires
        slot_of(a) == slot_of(b),
    ensures
        a == b,
{
    a.bytes_len();
    b.bytes_len();
    lemma_auto_spec_u64_to_from_le_bytes();
    assert(spec_u64_to_le_bytes(spec_u64_from_le_bytes(a.bytes())) == a.bytes());
    assert(spec_u64_to_le_bytes(spec_u64_from_le_bytes(b.bytes())) == b.bytes());
    Opaque::same_bytes(a, b);
}

/// The FNV-1a hash of a sequence of bytes, in 32 bits.
pub open spec fn fnv1a(bytes: Seq<u8>) -> u32
    decreases bytes.len(),
{
    if bytes.len() == 0 {
        0x811c_9dc5
    } else {
        (fnv1a(bytes.drop_last()) ^ (bytes.last() as u32)).wrapping_mul(0x0100_0193)
    }
}

impl Table {
    /// Whether slot `i` exists and holds a path that someone owns.
    spec fn occupied(&self, i: int) -> bool {
        0 <= i < self.slots@.len() && self.slots@[i].refs > 0
    }

    /// What slot `i` holds.
    spec fn cell_at(&self, i: int) -> Cell {
        Cell { text: self.slots@[i].text@, extra: (self.slots@[i].refs - 1) as nat }
    }

    /// An empty table: no value is alive.
    pub fn new() -> (table: Table)
        ensures
            table.valid(),
            table.heap() == Map::<Opaque, Cell>::empty(),
    {
        let table = Table { slots: Vec::new() };
        assert(table.heap() =~= Map::<Opaque, Cell>::empty());
        table
    }

    /// The value whose bytes name slot `i`.
    fn handle(i: usize) -> (o: Opaque)
        ensures
            slot_of(o) == i,
    {
        let bytes = u64_to_le_bytes(i as u64);
        let o = Opaque::from_bytes(
            [bytes[0], bytes[1], bytes[2], bytes[3], bytes[4], bytes[5], bytes[6], bytes[7]],
        );
        proof {
            lemma_auto_spec_u64_to_from_le_bytes();
            assert(o.bytes() =~= bytes@);
        }
        o
    }

    /// The slot that `o` names, if the table has it.
    fn locate(&self, o: &Opaque) -> (found: Option<usize>)
        ensures
            match found {
                Some(i) => i == slot_of(*o) && i < self.slots@.len(),
                None => slot_of(*o) >= self.slots@.len(),
            },
    {
        let bytes = o.to_bytes();
        proof {
            o.bytes_len();
        }
        let number = u64_from_le_bytes(bytes.as_slice());
        if number < self.slots.len() as u64 {
            Some(number as usize)
        } else {
            None
        }
    }

    /// The first slot that nobody owns, if there is one.
    fn vacant(&self) -> (found: Option<usize>)
        ensures
            match found {
                Some(i) => {
                    &&& i < self.slots@.len()
                    &&& self.slots@[i as int].refs == 0
                    &&& forall|j: int| 0 <= j < i ==> self.slots@[j].refs > 0
                },
                None => forall|j: int| 0 <= j < self.slots@.len() ==> self.slots@[j].refs > 0,
            },
    {
        let mut i: usize = 0;
        while i < self.slots.len()
            invariant
                i <= self.slots@.len(),
                forall|j: int| 0 <= j < i ==> self.slots@[j].refs > 0,
            decreases self.slots@.len() - i,
        {
            if self.slots[i].refs == 0 {
                return Some(i);
            }
            i += 1;
        }
        None
    }

    /// Puts `text` into the first slot that nobody owns and hands out the first reference
    /// to it.
    fn place(&mut self, text: String) -> (o: Opaque)
        requires
            old(self).valid(),
        ensures
            final(self).valid(),
            !live(old(self).heap(), o),
            forall|p: Opaque| slot_of(p) < slot_of(o) ==> live(old(self).heap(), p),
            final(self).heap() == acquire(old(self).heap(), o, text@),
    {
        let slot = Slot { text, refs: 1 };
        let i = match self.vacant() {
            Some(i) => {
                self.slots.set(i, slot);
                i
            },
            None => {
                self.slots.push(slot);
                self.slots.len() - 1
            },
        };
        let o = Self::handle(i);
        proof {
            let before = old(self).heap();
            let after = self.heap();
            assert forall|p: Opaque| p != o implies slot_of(p) != i by {
                if slot_of(p) == i {
                    slot_of_injective(p, o);
                }
            }
            assert(after =~= acquire(before, o, text@));
        }
        o
    }

    /// The values that are alive in the slots below `k`.
    spec fn live_below(&self, k: int) -> Set<Opaque> {
        Set::new(|o: Opaque| slot_of(o) < k && self.occupied(slot_of(o)))
    }

    /// The number of values that are alive.
    pub fn live_count(&self) -> (count: usize)
        requires
            self.valid(),
        ensures
            self.heap().dom().finite(),
            count == self.heap().dom().len(),
    {
        let mut count: usize = 0;
        let mut i: usize = 0;
        proof {
            assert(self.live_below(0) =~= Set::<Opaque>::empty());
        }
        while i < self.slots.len()
            invariant
                i <= self.slots@.len(),
                count <= i,
                self.live_below(i as int).finite(),
                count == self.live_below(i as int).len(),
            decreases self.slots@.len() - i,
        {
            if self.slots[i].refs > 0 {
                let o = Self::handle(i);
                proof {
                    assert forall|p: Opaque| slot_of(p) == i implies p == o by {
                        slot_of_injective(p, o);
                    }
                    assert(self.live_below(i + 1) =~= self.live_below(i as int).insert(o));
                }
                count += 1;
            } else {
                proof {
                    assert(self.live_below(i + 1) =~= self.live_below(i as int));
                }
            }
            i += 1;
        }
        proof {
            assert(self.live_below(i as int) =~= self.heap().dom());
        }
        count
    }

    /// The number of references that are out on `o`; zero if `o` is not alive.
    pub fn refs(&self, o: &Opaque) -> (count: u32)
        requires
            self.valid(),
        ensures
            count == refs_of(self.heap(), *o),
    {
        match self.locate(o) {
            Some(i) => self.slots[i].refs,
            None => 0,
        }
    }
}

impl Runtime for Table {
    closed spec fn heap(&self) -> Heap {
        Map::new(
            |o: Opaque| self.occupied(slot_of(o)),
            |o: Opaque| self.cell_at(slot_of(o)),
        )
    }

    closed spec fn valid(&self) -> bool {
        true
    }

    open spec fn hash_of(text: Seq<char>) -> u32 {
        fnv1a(vstd::utf8::encode_utf8(text))
    }

    /// The new value takes the first free slot: it was not alive before, and every value
    /// with a smaller slot number was.
    fn construct_default(&mut self) -> (o: Opaque)
        ensures
            !live(old(self).heap(), o),
            forall|p: Opaque| slot_of(p) < slot_of(o) ==> live(old(self).heap(), p),
    {
        self.place(String::new())
    }

    fn construct_copy(&mut self, src: &Opaque) -> (o: Opaque) {
        let found = self.locate(src);
        let i = found.unwrap();
        let text = self.slots[i].text.clone();
        let refs = self.slots[i].refs;
        self.slots.set(i, Slot { text, refs: refs + 1 });
        proof {
            let before = old(self).heap();
            let after = self.heap();
            assert forall|p: Opaque| p != *src implies slot_of(p) != i by {
                if slot_of(p) == i {
                    slot_of_injective(p, *src);
                }
            }
            assert(after =~= acquire(before, *src, before[*src].text));
        }
        *src
    }

    /// The new value takes the first free slot: it was not alive before, and every value
    /// with a smaller slot number was.
    fn construct_from_string(&mut self, text: &GString) -> (o: Opaque)
        ensures
            !live(old(self).heap(), o),
            forall|p: Opaque| slot_of(p) < slot_of(o) ==> live(old(self).heap(), p),
    {
        self.place(text.to_string())
    }

    fn destroy(&mut self, o: Opaque) {
        let found = self.locate(&o);
        let i = found.unwrap();
        let refs = self.slots[i].refs;
        let text = if refs > 1 {
            self.slots[i].text.clone()
        } else {
            String::new()
        };
        self.slots.set(i, Slot { text, refs: refs - 1 });
        proof {
            let before = old(self).heap();
            let after = self.heap();
            assert forall|p: Opaque| p != o implies slot_of(p) != i by {
                if slot_of(p) == i {
                    slot_of_injective(p, o);
                }
            }
            assert(after =~= release(before, o));
        }
    }

    fn operator_equal(&self, a: &Opaque, b: &Opaque) -> (equal: bool) {
        let i = self.locate(a).unwrap();
        let j = self.locate(b).unwrap();
        self.slots[i].text == self.slots[j].text
    }

    fn to_string(&self, o: &Opaque) -> (text: GString) {
        let i = self.locate(o).unwrap();
        GString::from_str(self.slots[i].text.as_str())
    }

    fn is_empty(&self, o: &Opaque) -> (empty: bool) {
        let i = self.locate(o).unwrap();
        self.slots[i].text.as_str().is_empty()
    }

    fn hash(&self, o: &Opaque) -> (hash: i64) {
        let i = self.locate(o).unwrap();
        let bytes = self.slots[i].text.as_str().as_bytes();
        let mut h: u32 = 0x811c_9dc5;
        let mut k: usize = 0;
        while k < bytes.len()
            invariant
                k <= bytes@.len(),
                h == fnv1a(bytes@.take(k as int)),
            decreases bytes@.len() - k,
        {
            proof {
                assert(bytes@.take(k + 1).drop_last() =~= bytes@.take(k as int));
            }
            h = (h ^ (bytes[k] as u32)).wrapping_mul(0x0100_0193);
            k += 1;
        }
        proof {
            assert(bytes@.take(k as int) =~= bytes@);
        }
        h as i64
    }
}

} // verus!

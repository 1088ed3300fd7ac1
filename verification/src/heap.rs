//! The runtime's side of the boundary as a mathematical model.
//!
//! A runtime keeps, for every value that is alive, the text of the path and the number
//! of references that are outstanding on it. Values are told apart by their bytes alone.

use vstd::prelude::*;
use crate::opaque::Opaque;

verus! {

/// What the runtime keeps for one live value.
pub struct Cell {
    /// The path, written out as text.
    pub text: Seq<char>,
    /// How many owners the value has besides the one that keeps it alive. A live value
    /// has at least one owner, so its reference count is this number and one.
    pub extra: nat,
}

/// The live values of a runtime, keyed by their bytes.
pub type Heap = Map<Opaque, Cell>;

/// The largest reference count that a runtime can hold for one value.
pub const MAX_REFS: u32 = 0xffff_ffff;

/// Whether `o` is alive: it can be read, copied and destroyed.
pub open spec fn live(h: Heap, o: Opaque) -> bool {
    h.dom().contains(o)
}

/// The text of the path that `o` stands for.
pub open spec fn text_of(h: Heap, o: Opaque) -> Seq<char> {
    h[o].text
}

/// The number of references outstanding on `o`; zero for a value that is not alive.
pub open spec fn refs_of(h: Heap, o: Opaque) -> nat {
    if h.dom().contains(o) {
        h[o].extra + 1
    } else {
        0
    }
}

/// The heap after one more reference to `o` has been handed out, `o` reading as `text`.
pub open spec fn acquire(h: Heap, o: Opaque, text: Seq<char>) -> Heap {
    h.insert(o, Cell { text, extra: refs_of(h, o) })
}

/// The heap after one reference to `o` has been given up. The value dies with its last
/// reference.
pub open spec fn release(h: Heap, o: Opaque) -> Heap {
    if refs_of(h, o) > 1 {
        h.insert(o, Cell { text: h[o].text, extra: (h[o].extra - 1) as nat })
    } else {
        h.remove(o)
    }
}

/// Whether two live values stand for the same path.
pub open spec fn same_path(h: Heap, a: Opaque, b: Opaque) -> bool {
    h[a].text == h[b].text
}

} // verus!

//! The entry points that a runtime offers for node paths, with what each one promises.

use vstd::prelude::*;
use crate::heap::{acquire, live, refs_of, release, same_path, text_of, Heap, MAX_REFS};
use crate::opaque::Opaque;
use crate::string::GString;

verus! {

/// A runtime that owns node paths and counts the references to each.
///
/// The wrapper in [`crate::node_path`] is written against these contracts alone. A
/// runtime that shares storage between equal values, or that keeps one value for every
/// empty path, meets them as well as one that allocates anew each time: a constructor
/// may hand out bytes that are alive already, as long as they read as the text asked
/// for and their count leaves room for one copy.
///
/// The three functions of the model come with bodies for a runtime that says nothing of
/// itself. Such a runtime is never [`valid`](Runtime::valid), so no verified code can
/// call into it, and nothing is claimed of it. A binding to an engine that is written
/// outside of verified code is of this kind: what the wrapper does on top of it rests on
/// the binding meeting the contracts below.
pub trait Runtime {
    /// The live values, with their texts and reference counts.
    open spec fn heap(&self) -> Heap {
        Map::empty()
    }

    /// The runtime's own consistency, which every entry point needs and keeps.
    open spec fn valid(&self) -> bool {
        false
    }

    /// The hash that this runtime gives to a path with the given text.
    open spec fn hash_of(text: Seq<char>) -> u32 {
        0
    }

    /// Makes the empty path and hands one reference to the caller. The value that is
    /// handed out can be copied at least once.
    fn construct_default(&mut self) -> (o: Opaque)
        requires
            old(self).valid(),
        ensures
            final(self).valid(),
            live(old(self).heap(), o) ==> text_of(old(self).heap(), o) == Seq::<char>::empty(),
            final(self).heap() == acquire(old(self).heap(), o, Seq::<char>::empty()),
            refs_of(final(self).heap(), o) < MAX_REFS,
    ;

    /// Copies a live value. The copy shares the storage of its source: it has the same
    /// bytes, and the count of that storage goes up by one.
    fn construct_copy(&mut self, src: &Opaque) -> (o: Opaque)
        requires
            old(self).valid(),
            live(old(self).heap(), *src),
            refs_of(old(self).heap(), *src) < MAX_REFS,
        ensures
            final(self).valid(),
            o == *src,
            final(self).heap() == acquire(old(self).heap(), o, text_of(old(self).heap(), o)),
    ;

    /// Makes the path that `text` spells and hands one reference to the caller. The
    /// value that is handed out can be copied at least once.
    fn construct_from_string(&mut self, text: &GString) -> (o: Opaque)
        requires
            old(self).valid(),
        ensures
            final(self).valid(),
            live(old(self).heap(), o) ==> text_of(old(self).heap(), o) == text@,
            final(self).heap() == acquire(old(self).heap(), o, text@),
            refs_of(final(self).heap(), o) < MAX_REFS,
    ;

    /// Gives up one reference to a live value.
    fn destroy(&mut self, o: Opaque)
        requires
            old(self).valid(),
            live(old(self).heap(), o),
        ensures
            final(self).valid(),
            final(self).heap() == release(old(self).heap(), o),
    ;

    /// Whether two live values stand for the same path.
    fn operator_equal(&self, a: &Opaque, b: &Opaque) -> (equal: bool)
        requires
            self.valid(),
            live(self.heap(), *a),
            live(self.heap(), *b),
        ensures
            equal == same_path(self.heap(), *a, *b),
    ;

    /// The text of a live value as a runtime string.
    fn to_string(&self, o: &Opaque) -> (text: GString)
        requires
            self.valid(),
            live(self.heap(), *o),
        ensures
            text@ == text_of(self.heap(), *o),
    ;

    /// Whether a live value is the empty path. Reached through the method table, not
    /// through a fixed entry point.
    fn is_empty(&self, o: &Opaque) -> (empty: bool)
        requires
            self.valid(),
            live(self.heap(), *o),
        ensures
            empty == (text_of(self.heap(), *o).len() == 0),
    ;

    /// The hash of a live value, in the range of an unsigned 32-bit number. Reached
    /// through the method table, not through a fixed entry point.
    fn hash(&self, o: &Opaque) -> (hash: i64)
        requires
            self.valid(),
            live(self.heap(), *o),
        ensures
            0 <= hash <= u32::MAX,
            hash == Self::hash_of(text_of(self.heap(), *o)),
    ;
}

} // verus!

//! What holds of every node path, whatever runtime keeps it.
//!
//! Each statement is made over the model of [`crate::heap`], in which the contracts of
//! [`crate::runtime::Runtime`] and [`crate::node_path::NodePath`] are written.

use vstd::prelude::*;
use crate::heap::{acquire, live, refs_of, release, same_path, text_of, Heap};
use crate::opaque::Opaque;
use crate::runtime::Runtime;
use crate::serialize::{reading, Content, Unexpected};

verus! {

/// Text that a path is made from is the text that the path gives back, the empty text
/// included.
pub proof fn text_round_trip(h: Heap, o: Opaque, text: Seq<char>)
    ensures
        live(acquire(h, o, text), o),
        text_of(acquire(h, o, text), o) == text,
{
}

/// A copy equals its source, and outlives it: once the source has been destroyed, the
/// copy is still alive and reads as before. Nothing else in the runtime has changed by
/// then.
pub proof fn copy_equals_and_outlives_source(h: Heap, a: Opaque)
    requires
        live(h, a),
    ensures
        ({
            let copied = acquire(h, a, text_of(h, a));
            let source_gone = release(copied, a);
            &&& same_path(copied, a, a)
            &&& text_of(copied, a) == text_of(h, a)
            &&& refs_of(copied, a) == refs_of(h, a) + 1
            &&& live(source_gone, a)
            &&& text_of(source_gone, a) == text_of(h, a)
            &&& source_gone == h
        }),
{
    let copied = acquire(h, a, text_of(h, a));
    assert(release(copied, a) =~= h);
}

/// A path that was just made can be copied, and the two are destroyed one after the
/// other, in either order: whichever goes first, the other still reads as the text that
/// the path was made from, and once both are gone the runtime is as it was before.
pub proof fn new_path_and_copy_are_independent(h: Heap, o: Opaque, text: Seq<char>)
    requires
        live(h, o) ==> text_of(h, o) == text,
    ensures
        ({
            let made = acquire(h, o, text);
            let copied = acquire(made, o, text_of(made, o));
            let one_gone = release(copied, o);
            &&& same_path(copied, o, o)
            &&& text_of(copied, o) == text
            &&& refs_of(copied, o) == refs_of(h, o) + 2
            &&& live(one_gone, o)
            &&& text_of(one_gone, o) == text
            &&& one_gone == made
            &&& release(one_gone, o) == h
        }),
{
    let made = acquire(h, o, text);
    let copied = acquire(made, o, text_of(made, o));
    assert(release(copied, o) =~= made);
    assert(release(made, o) =~= h);
}

/// The count of a value is the number of its owners: it goes up by one with every
/// reference that is handed out and down by one with every reference that is given up,
/// and the value is alive as long as the count is above zero.
pub proof fn count_follows_owners(h: Heap, o: Opaque, text: Seq<char>)
    ensures
        refs_of(acquire(h, o, text), o) == refs_of(h, o) + 1,
        live(h, o) ==> refs_of(release(h, o), o) == refs_of(h, o) - 1,
        live(h, o) == (refs_of(h, o) > 0),
        live(release(h, o), o) == (refs_of(h, o) > 1),
{
}

/// Owners are independent: what one of them does with its reference changes nothing for
/// a value with other bytes.
pub proof fn other_values_are_untouched(h: Heap, o: Opaque, text: Seq<char>, p: Opaque)
    requires
        p != o,
    ensures
        live(acquire(h, o, text), p) == live(h, p),
        refs_of(acquire(h, o, text), p) == refs_of(h, p),
        text_of(acquire(h, o, text), p) == text_of(h, p),
        live(release(h, o), p) == live(h, p),
        refs_of(release(h, o), p) == refs_of(h, p),
        text_of(release(h, o), p) == text_of(h, p),
{
}

/// A value keeps its text for as long as it is alive: giving up a reference that is not
/// the last does not change it, nor does handing out another reference to the same text.
pub proof fn text_is_stable(h: Heap, o: Opaque)
    requires
        live(h, o),
    ensures
        text_of(acquire(h, o, text_of(h, o)), o) == text_of(h, o),
        refs_of(h, o) > 1 ==> text_of(release(h, o), o) == text_of(h, o),
{
}

/// Equality of paths is reflexive, symmetric and transitive.
pub proof fn equality_is_equivalence(h: Heap, a: Opaque, b: Opaque, c: Opaque)
    ensures
        same_path(h, a, a),
        same_path(h, a, b) ==> same_path(h, b, a),
        same_path(h, a, b) && same_path(h, b, c) ==> same_path(h, a, c),
{
}

/// Equal paths have equal hashes.
pub proof fn equal_paths_hash_alike<R: Runtime>(h: Heap, a: Opaque, b: Opaque)
    requires
        same_path(h, a, b),
    ensures
        R::hash_of(text_of(h, a)) == R::hash_of(text_of(h, b)),
{
}

/// A path made by default is empty, and a path made from text is empty only if the text
/// is.
pub proof fn emptiness_follows_text(h: Heap, o: Opaque, text: Seq<char>)
    ensures
        text_of(acquire(h, o, Seq::<char>::empty()), o).len() == 0,
        (text_of(acquire(h, o, text), o).len() == 0) == (text.len() == 0),
{
}

/// Making a path and destroying it again leaves the runtime exactly as it was: no value
/// and no reference stays behind.
pub proof fn construct_then_destroy_leaks_nothing(h: Heap, o: Opaque, text: Seq<char>)
    requires
        live(h, o) ==> text_of(h, o) == text,
    ensures
        release(acquire(h, o, text), o) == h,
{
    assert(release(acquire(h, o, text), o) =~= h);
}

/// The heap after a run of cycles, each of which makes one path and destroys it again.
/// `made` gives, for each cycle in turn, the bytes that the runtime handed out and the
/// text that was asked for.
pub open spec fn after_cycles(h: Heap, made: Seq<(Opaque, Seq<char>)>) -> Heap
    decreases made.len(),
{
    if made.len() == 0 {
        h
    } else {
        let before = after_cycles(h, made.drop_last());
        release(acquire(before, made.last().0, made.last().1), made.last().0)
    }
}

/// However many paths are made and destroyed in turn, the runtime ends as it began.
pub proof fn cycles_leak_nothing(h: Heap, made: Seq<(Opaque, Seq<char>)>)
    requires
        forall|i: int|
            0 <= i < made.len() && live(h, (#[trigger] made[i]).0) ==> text_of(h, made[i].0)
                == made[i].1,
    ensures
        after_cycles(h, made) == h,
    decreases made.len(),
{
    if made.len() > 0 {
        let earlier = made.drop_last();
        assert forall|i: int|
            0 <= i < earlier.len() && live(h, (#[trigger] earlier[i]).0) implies text_of(
            h,
            earlier[i].0,
        ) == earlier[i].1 by {
            assert(earlier[i] == made[i]);
        }
        cycles_leak_nothing(h, earlier);
        assert(made.last() == made[made.len() - 1]);
        construct_then_destroy_leaks_nothing(h, made.last().0, made.last().1);
    }
}

/// Bare text and the same text inside a wrapper read as the same path.
pub proof fn wrapper_reads_as_its_text(text: String)
    ensures
        reading(Content::Str(text)) == Ok::<Seq<char>, Unexpected>(text@),
        reading(Content::NewtypeStruct(Box::new(Content::Str(text)))) == reading(
            Content::Str(text),
        ),
{
}

/// Two shapes are read as a path and no others: bare text, and one wrapper whose field
/// is text. A wrapper around a wrapper is refused like any other data.
pub proof fn only_text_and_one_wrapper_are_read(content: Content)
    ensures
        reading(content) is Ok <==> (content is Str || (content matches Content::NewtypeStruct(
            field,
        ) && *field is Str)),
        content matches Content::NewtypeStruct(field) && *field is NewtypeStruct ==> reading(
            content,
        ) == Err::<Seq<char>, Unexpected>(Unexpected::NewtypeStruct),
{
}

} // verus!

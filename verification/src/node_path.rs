//! The host's wrapper around one node path of the runtime.

use vstd::prelude::*;
use vstd::string::StringExecFns;
use crate::heap::{acquire, live, refs_of, release, text_of, MAX_REFS};
use crate::opaque::Opaque;
use crate::runtime::Runtime;
use crate::string::{GString, StringName};

verus! {

/// A pre-parsed scene tree path.
///
/// The value itself lives in the runtime. The wrapper holds the bytes that name it and
/// one reference to it, which [`NodePath::destroy`] gives back. It is for the caller to
/// see that two wrappers do not share one reference: a second owner takes a
/// [`NodePath::copy`]. The contracts count references; they do not tell whose each is.
pub struct NodePath {
    opaque: Opaque,
}

impl View for NodePath {
    type V = Opaque;

    closed spec fn view(&self) -> Opaque {
        self.opaque
    }
}

/// The literal notation of a node path with the given text, as scripts write it.
pub open spec fn literal(text: Seq<char>) -> Seq<char> {
    seq!['^', '"'] + text + seq!['"']
}

impl NodePath {
    /// Whether the runtime still holds the value that this wrapper names.
    pub open spec fn live_in<R: Runtime>(&self, rt: &R) -> bool {
        live(rt.heap(), self@)
    }

    /// The text of the path, as the runtime has it.
    pub open spec fn text_in<R: Runtime>(&self, rt: &R) -> Seq<char> {
        text_of(rt.heap(), self@)
    }

    /// Wraps bytes that came from the runtime. The wrapper takes over whatever
    /// reference came with them; the count in the runtime is not touched.
    pub fn from_opaque(opaque: Opaque) -> (path: Self)
        ensures
            path@ == opaque,
    {
        NodePath { opaque }
    }

    /// The bytes, for a call into the runtime that only looks at the value.
    pub fn sys(&self) -> (opaque: &Opaque)
        ensures
            *opaque == self@,
    {
        &self.opaque
    }

    /// Lets go of the wrapper without telling the runtime. The reference that it held
    /// stays counted and passes to whoever receives the bytes.
    pub fn into_opaque(self) -> (opaque: Opaque)
        ensures
            opaque == self@,
    {
        self.opaque
    }

    /// The empty path.
    pub fn new<R: Runtime>(rt: &mut R) -> (path: Self)
        requires
            old(rt).valid(),
        ensures
            final(rt).valid(),
            path.live_in(final(rt)),
            path.text_in(final(rt)) == Seq::<char>::empty(),
            live(old(rt).heap(), path@) ==> text_of(old(rt).heap(), path@) == Seq::<char>::empty(),
            final(rt).heap() == acquire(old(rt).heap(), path@, Seq::<char>::empty()),
            refs_of(final(rt).heap(), path@) < MAX_REFS,
    {
        NodePath { opaque: rt.construct_default() }
    }

    /// A second owner of the same path. Source and copy are destroyed independently.
    pub fn copy<R: Runtime>(&self, rt: &mut R) -> (path: Self)
        requires
            old(rt).valid(),
            self.live_in(old(rt)),
            refs_of(old(rt).heap(), self@) < MAX_REFS,
        ensures
            final(rt).valid(),
            path@ == self@,
            path.live_in(final(rt)),
            path.text_in(final(rt)) == self.text_in(old(rt)),
            final(rt).heap() == acquire(old(rt).heap(), self@, self.text_in(old(rt))),
    {
        NodePath { opaque: rt.construct_copy(&self.opaque) }
    }

    /// Gives the wrapper's reference back to the runtime.
    pub fn destroy<R: Runtime>(self, rt: &mut R)
        requires
            old(rt).valid(),
            self.live_in(old(rt)),
        ensures
            final(rt).valid(),
            final(rt).heap() == release(old(rt).heap(), self@),
    {
        rt.destroy(self.opaque)
    }

    /// Takes ownership of a value that the runtime passed by reference as an argument
    /// of a call.
    ///
    /// The runtime keeps its own reference to an argument, so the wrapper has to acquire
    /// one for itself, exactly once: the bytes are read as they are, and one copy is made
    /// and let go of without being destroyed.
    pub fn from_arg_ptr<R: Runtime>(rt: &mut R, arg: &Opaque) -> (path: Self)
        requires
            old(rt).valid(),
            live(old(rt).heap(), *arg),
            refs_of(old(rt).heap(), *arg) < MAX_REFS,
        ensures
            final(rt).valid(),
            path@ == *arg,
            path.live_in(final(rt)),
            path.text_in(final(rt)) == text_of(old(rt).heap(), *arg),
            refs_of(final(rt).heap(), *arg) == refs_of(old(rt).heap(), *arg) + 1,
            final(rt).heap() == acquire(old(rt).heap(), *arg, text_of(old(rt).heap(), *arg)),
    {
        let path = Self::from_opaque(*arg);
        let extra = path.copy(rt);
        let _ = extra.into_opaque();
        path
    }

    /// Whether both wrappers name the same path.
    pub fn equals<R: Runtime>(&self, other: &Self, rt: &R) -> (equal: bool)
        requires
            rt.valid(),
            self.live_in(rt),
            other.live_in(rt),
        ensures
            equal == (self.text_in(rt) == other.text_in(rt)),
    {
        rt.operator_equal(&self.opaque, &other.opaque)
    }

    /// Whether this is the empty path.
    pub fn is_empty<R: Runtime>(&self, rt: &R) -> (empty: bool)
        requires
            rt.valid(),
            self.live_in(rt),
        ensures
            empty == (self.text_in(rt).len() == 0),
    {
        self.as_inner().is_empty(rt)
    }

    /// Returns a 32-bit integer hash value representing the path.
    pub fn hash<R: Runtime>(&self, rt: &R) -> (hash: u32)
        requires
            rt.valid(),
            self.live_in(rt),
        ensures
            hash == R::hash_of(self.text_in(rt)),
    {
        // The runtime promises a number that fits, so nothing is cut off here.
        let raw = self.as_inner().hash(rt);
        raw as u32
    }

    /// The view of this path through which the runtime's method table is called.
    pub fn as_inner(&self) -> (inner: InnerNodePath<'_>)
        ensures
            inner@ == self@,
    {
        InnerNodePath::from_outer(self)
    }

    /// The path that a runtime string spells.
    pub fn from_gstring<R: Runtime>(rt: &mut R, text: &GString) -> (path: Self)
        requires
            old(rt).valid(),
        ensures
            final(rt).valid(),
            path.live_in(final(rt)),
            path.text_in(final(rt)) == text@,
            live(old(rt).heap(), path@) ==> text_of(old(rt).heap(), path@) == text@,
            final(rt).heap() == acquire(old(rt).heap(), path@, text@),
            refs_of(final(rt).heap(), path@) < MAX_REFS,
    {
        NodePath { opaque: rt.construct_from_string(text) }
    }

    /// The path that host text spells. The text is first made into a runtime string.
    pub fn from_text<R: Runtime>(rt: &mut R, text: &str) -> (path: Self)
        requires
            old(rt).valid(),
        ensures
            final(rt).valid(),
            path.live_in(final(rt)),
            path.text_in(final(rt)) == text@,
            live(old(rt).heap(), path@) ==> text_of(old(rt).heap(), path@) == text@,
            final(rt).heap() == acquire(old(rt).heap(), path@, text@),
            refs_of(final(rt).heap(), path@) < MAX_REFS,
    {
        let intermediate = GString::from_str(text);
        Self::from_gstring(rt, &intermediate)
    }

    /// The path that an interned name spells. There is no direct way: the name is first
    /// made into a runtime string, so this is no faster than doing so by hand.
    pub fn from_string_name<R: Runtime>(rt: &mut R, name: &StringName) -> (path: Self)
        requires
            old(rt).valid(),
        ensures
            final(rt).valid(),
            path.live_in(final(rt)),
            path.text_in(final(rt)) == name@,
            live(old(rt).heap(), path@) ==> text_of(old(rt).heap(), path@) == name@,
            final(rt).heap() == acquire(old(rt).heap(), path@, name@),
            refs_of(final(rt).heap(), path@) < MAX_REFS,
    {
        let intermediate = GString::from_string_name(name);
        Self::from_gstring(rt, &intermediate)
    }

    /// The text of the path as a runtime string.
    pub fn to_gstring<R: Runtime>(&self, rt: &R) -> (text: GString)
        requires
            rt.valid(),
            self.live_in(rt),
        ensures
            text@ == self.text_in(rt),
    {
        rt.to_string(&self.opaque)
    }

    /// The text of the path, for display.
    pub fn to_text<R: Runtime>(&self, rt: &R) -> (text: String)
        requires
            rt.valid(),
            self.live_in(rt),
        ensures
            text@ == self.text_in(rt),
    {
        let string = self.to_gstring(rt);
        string.to_string()
    }

    /// The path in the literal notation of scripts, `^"text"`, for debugging.
    pub fn debug_text<R: Runtime>(&self, rt: &R) -> (text: String)
        requires
            rt.valid(),
            self.live_in(rt),
        ensures
            text@ == literal(self.text_in(rt)),
    {
        let string = self.to_gstring(rt);
        let mut text = String::from_str("^\"");
        text.append(string.as_str());
        text.append("\"");
        proof {
            reveal_strlit("^\"");
            reveal_strlit("\"");
            assert("^\""@ =~= seq!['^', '"']);
            assert("\""@ =~= seq!['"']);
        }
        text
    }
}

/// A node path seen through the runtime's method table, which holds the methods that
/// have no entry point of their own.
pub struct InnerNodePath<'a> {
    outer: &'a NodePath,
}

impl<'a> View for InnerNodePath<'a> {
    type V = Opaque;

    closed spec fn view(&self) -> Opaque {
        self.outer@
    }
}

impl<'a> InnerNodePath<'a> {
    /// The view of `outer`.
    pub fn from_outer(outer: &'a NodePath) -> (inner: Self)
        ensures
            inner@ == outer@,
    {
        InnerNodePath { outer }
    }

    /// Whether the path is empty.
    pub fn is_empty<R: Runtime>(&self, rt: &R) -> (empty: bool)
        requires
            rt.valid(),
            live(rt.heap(), self@),
        ensures
            empty == (text_of(rt.heap(), self@).len() == 0),
    {
        rt.is_empty(&self.outer.opaque)
    }

    /// The hash of the path as the runtime returns it, a 64-bit number in the range of
    /// 32 unsigned bits.
    pub fn hash<R: Runtime>(&self, rt: &R) -> (hash: i64)
        requires
            rt.valid(),
            live(rt.heap(), self@),
        ensures
            0 <= hash <= u32::MAX,
            hash == R::hash_of(text_of(rt.heap(), self@)),
    {
        rt.hash(&self.outer.opaque)
    }
}

} // verus!

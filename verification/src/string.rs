//! The string types that stand between host text and a node path.

use vstd::prelude::*;
use vstd::string::StringExecFns;

verus! {

/// A string in the form that the runtime takes and gives.
///
/// Host text goes in and comes out as UTF-8, whatever the runtime does with it inside.
pub struct GString {
    text: String,
}

impl View for GString {
    type V = Seq<char>;

    closed spec fn view(&self) -> Seq<char> {
        self.text@
    }
}

impl GString {
    /// The empty string.
    pub fn new() -> (s: Self)
        ensures
            s@ == Seq::<char>::empty(),
    {
        GString { text: String::new() }
    }

    /// The runtime string with the characters of `text`.
    pub fn from_str(text: &str) -> (s: Self)
        ensures
            s@ == text@,
    {
        GString { text: String::from_str(text) }
    }

    /// The runtime string with the characters of an interned name.
    pub fn from_string_name(name: &StringName) -> (s: Self)
        ensures
            s@ == name@,
    {
        GString { text: name.text.clone() }
    }

    /// The characters as borrowed host text.
    pub fn as_str(&self) -> (text: &str)
        ensures
            text@ == self@,
    {
        self.text.as_str()
    }

    /// The characters as host text of its own.
    pub fn to_string(&self) -> (text: String)
        ensures
            text@ == self@,
    {
        self.text.clone()
    }
}

/// An interned name of the runtime. A node path is never made from it directly, only by
/// way of a [`GString`].
pub struct StringName {
    text: String,
}

impl View for StringName {
    type V = Seq<char>;

    closed spec fn view(&self) -> Seq<char> {
        self.text@
    }
}

impl StringName {
    /// The name with the characters of `text`.
    pub fn from_str(text: &str) -> (name: Self)
        ensures
            name@ == text@,
    {
        StringName { text: String::from_str(text) }
    }
}

} // verus!

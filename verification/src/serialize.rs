//! Writing a node path out as data and reading it back.
//!
//! A path is written as a wrapper named `NodePath` around one field, the text of the
//! path. It is read back from that form and from bare text, and from nothing else. What
//! a data format hands over is given here as a [`Content`]; the format itself is not
//! this module's business.

use vstd::prelude::*;
use crate::heap::{acquire, live, refs_of, text_of, MAX_REFS};
use crate::node_path::NodePath;
use crate::runtime::Runtime;

verus! {

/// A piece of data that lies where text should, by its kind.
#[derive(Debug, PartialEq, Eq)]
pub enum Unexpected {
    /// A wrapper inside the wrapper.
    NewtypeStruct,
    Bool(bool),
    Unsigned(u64),
    Signed(i64),
    /// A floating-point number, given by the bits of its 64-bit form.
    Float(u64),
    Bytes(Vec<u8>),
    Unit,
    Optional,
    Sequence,
    Mapping,
    Enum,
}

/// What a data format found where a node path was asked for.
#[derive(Debug, PartialEq, Eq)]
pub enum Content {
    /// Bare text.
    Str(String),
    /// A wrapper around one field.
    NewtypeStruct(Box<Content>),
    /// Anything else.
    Unsupported(Unexpected),
}

/// The written form of a node path: a wrapper with a name and one text field.
#[derive(Debug, PartialEq, Eq)]
pub struct Newtype {
    pub name: &'static str,
    pub value: String,
}

/// Why a piece of data is no node path.
#[derive(Debug, PartialEq, Eq)]
pub enum DeserializeError {
    /// The data has another type than text. Carries what was found.
    InvalidType(Unexpected),
}

/// What reading `content` as a node path comes to: the text, found bare or as the one
/// field of a wrapper, or else the data that lies there in place of text.
pub open spec fn reading(content: Content) -> Result<Seq<char>, Unexpected> {
    match content {
        Content::Str(text) => Ok(text@),
        Content::NewtypeStruct(field) => match *field {
            Content::Str(text) => Ok(text@),
            Content::NewtypeStruct(_) => Err(Unexpected::NewtypeStruct),
            Content::Unsupported(found) => Err(found),
        },
        Content::Unsupported(found) => Err(found),
    }
}

/// The name under which a node path is written.
pub fn wrapper_name() -> (name: &'static str)
    ensures
        name@ == "NodePath"@,
{
    "NodePath"
}

/// What a reader is told that it should have found.
pub fn expecting() -> (message: &'static str)
    ensures
        message@ == "a NodePath"@,
{
    "a NodePath"
}

/// The written form of `path`.
pub fn serialize<R: Runtime>(path: &NodePath, rt: &R) -> (form: Newtype)
    requires
        rt.valid(),
        path.live_in(rt),
    ensures
        form.name@ == "NodePath"@,
        form.value@ == path.text_in(rt),
{
    Newtype { name: wrapper_name(), value: path.to_text(rt) }
}

impl Newtype {
    /// The written form as a reader finds it: the wrapper around the text.
    pub fn into_content(self) -> (content: Content)
        ensures
            content == Content::NewtypeStruct(Box::new(Content::Str(self.value))),
            reading(content) == Ok::<Seq<char>, Unexpected>(self.value@),
    {
        Content::NewtypeStruct(Box::new(Content::Str(self.value)))
    }
}

/// Reads the text of a node path out of bare text or out of a wrapper around text. Any
/// other data is refused: a number, a sequence, a wrapper around anything but text.
pub fn read_text(content: Content) -> (result: Result<String, DeserializeError>)
    ensures
        match result {
            Ok(text) => reading(content) == Ok::<Seq<char>, Unexpected>(text@),
            Err(error) => {
                &&& reading(content) is Err
                &&& error == DeserializeError::InvalidType(reading(content)->Err_0)
            },
        },
{
    match content {
        Content::Str(text) => Ok(text),
        Content::NewtypeStruct(field) => match *field {
            Content::Str(text) => Ok(text),
            Content::NewtypeStruct(_) => Err(
                DeserializeError::InvalidType(Unexpected::NewtypeStruct),
            ),
            Content::Unsupported(found) => Err(DeserializeError::InvalidType(found)),
        },
        Content::Unsupported(found) => Err(DeserializeError::InvalidType(found)),
    }
}

/// Reads a node path from bare text or from a wrapper around text, and makes it in the
/// runtime. Any other data is refused, and the runtime is left as it was.
pub fn deserialize<R: Runtime>(rt: &mut R, content: Content) -> (result: Result<
    NodePath,
    DeserializeError,
>)
    requires
        old(rt).valid(),
    ensures
        final(rt).valid(),
        match result {
            Ok(path) => {
                &&& reading(content) == Ok::<Seq<char>, Unexpected>(path.text_in(final(rt)))
                &&& path.live_in(final(rt))
                &&& live(old(rt).heap(), path@) ==> text_of(old(rt).heap(), path@)
                    == path.text_in(final(rt))
                &&& final(rt).heap() == acquire(
                    old(rt).heap(),
                    path@,
                    path.text_in(final(rt)),
                )
                &&& refs_of(final(rt).heap(), path@) < MAX_REFS
            },
            Err(error) => {
                &&& reading(content) is Err
                &&& error == DeserializeError::InvalidType(reading(content)->Err_0)
                &&& final(rt).heap() == old(rt).heap()
            },
        },
{
    match read_text(content) {
        Ok(text) => Ok(NodePath::from_text(rt, text.as_str())),
        Err(error) => Err(error),
    }
}

} // verus!

use std::fmt;

use node_path::node_path::NodePath;
use node_path::serialize::{
    deserialize, expecting, read_text, serialize, wrapper_name, Content, DeserializeError,
    Newtype, Unexpected,
};
use node_path::table::Table;
use serde::de::value::{
    BoolDeserializer, F64Deserializer, I64Deserializer, MapDeserializer, SeqDeserializer,
    StrDeserializer, U64Deserializer, UnitDeserializer,
};
use serde::de::{self, Error, IntoDeserializer, MapAccess, SeqAccess, Visitor};
use serde::{Deserializer, Serialize, Serializer};

type ValueError = serde::de::value::Error;

/// What the library found, in serde's terms.
fn unexpected(found: &Unexpected) -> de::Unexpected<'_> {
    match found {
        Unexpected::NewtypeStruct => de::Unexpected::NewtypeStruct,
        Unexpected::Bool(v) => de::Unexpected::Bool(*v),
        Unexpected::Unsigned(v) => de::Unexpected::Unsigned(*v),
        Unexpected::Signed(v) => de::Unexpected::Signed(*v),
        Unexpected::Float(bits) => de::Unexpected::Float(f64::from_bits(*bits)),
        Unexpected::Bytes(v) => de::Unexpected::Bytes(v),
        Unexpected::Unit => de::Unexpected::Unit,
        Unexpected::Optional => de::Unexpected::Option,
        Unexpected::Sequence => de::Unexpected::Seq,
        Unexpected::Mapping => de::Unexpected::Map,
        Unexpected::Enum => de::Unexpected::Enum,
    }
}

/// The library's refusal as an error of the format.
fn invalid_type<E: Error>(error: DeserializeError) -> E {
    let DeserializeError::InvalidType(found) = error;
    E::invalid_type(unexpected(&found), &expecting())
}

/// Asks the library about data that is no text and no wrapper.
fn judge<E: Error>(found: Unexpected) -> Result<Content, E> {
    match read_text(Content::Unsupported(found)) {
        Ok(text) => Ok(Content::Str(text)),
        Err(error) => Err(invalid_type(error)),
    }
}

/// Takes down the text and the wrappers that the format presents.
struct ContentVisitor;

impl<'de> Visitor<'de> for ContentVisitor {
    type Value = Content;

    fn expecting(&self, formatter: &mut fmt::Formatter) -> fmt::Result {
        formatter.write_str(expecting())
    }

    fn visit_str<E: Error>(self, s: &str) -> Result<Content, E> {
        Ok(Content::Str(s.to_owned()))
    }

    fn visit_newtype_struct<D>(self, deserializer: D) -> Result<Content, D::Error>
    where
        D: Deserializer<'de>,
    {
        let field = deserializer.deserialize_str(self)?;
        Ok(Content::NewtypeStruct(Box::new(field)))
    }

    fn visit_bool<E: Error>(self, v: bool) -> Result<Content, E> {
        judge(Unexpected::Bool(v))
    }

    fn visit_i64<E: Error>(self, v: i64) -> Result<Content, E> {
        judge(Unexpected::Signed(v))
    }

    fn visit_u64<E: Error>(self, v: u64) -> Result<Content, E> {
        judge(Unexpected::Unsigned(v))
    }

    fn visit_f64<E: Error>(self, v: f64) -> Result<Content, E> {
        judge(Unexpected::Float(v.to_bits()))
    }

    fn visit_unit<E: Error>(self) -> Result<Content, E> {
        judge(Unexpected::Unit)
    }

    fn visit_seq<A: SeqAccess<'de>>(self, _seq: A) -> Result<Content, A::Error> {
        judge(Unexpected::Sequence)
    }

    fn visit_map<A: MapAccess<'de>>(self, _map: A) -> Result<Content, A::Error> {
        judge(Unexpected::Mapping)
    }
}

/// What JSON text presents where a node path is asked for.
fn content_of(json: &str) -> Result<Content, serde_json::Error> {
    let mut deserializer = serde_json::Deserializer::from_str(json);
    let content = deserializer.deserialize_newtype_struct(wrapper_name(), ContentVisitor)?;
    deserializer.end()?;
    Ok(content)
}

/// What a deserializer presents that pays no regard to what is asked for.
fn content_from<'de, D>(deserializer: D) -> Result<Content, ValueError>
where
    D: Deserializer<'de, Error = ValueError>,
{
    deserializer.deserialize_newtype_struct(wrapper_name(), ContentVisitor)
}

/// The written form, handed to a format the way it asks for it.
struct Written(Newtype);

impl Serialize for Written {
    fn serialize<S: Serializer>(&self, serializer: S) -> Result<S::Ok, S::Error> {
        serializer.serialize_newtype_struct(self.0.name, &*self.0.value)
    }
}

#[test]
fn json_string_reads_as_the_path() {
    let mut rt = Table::new();
    let expected = NodePath::from_text(&mut rt, "abc");
    let path = deserialize(&mut rt, content_of("\"abc\"").unwrap()).unwrap();
    assert!(path.equals(&expected, &rt));
    path.destroy(&mut rt);
    expected.destroy(&mut rt);
}

#[test]
fn json_presents_the_wrapper_around_the_text() {
    assert_eq!(
        content_of("\"abc\"").unwrap(),
        Content::NewtypeStruct(Box::new(Content::Str(String::from("abc"))))
    );
}

#[test]
fn json_refuses_other_values_itself() {
    for json in ["5", "-3", "1.5", "true", "null", "[1, \"a\"]", "{\"NodePath\": \"a\"}"] {
        let error = content_of(json).unwrap_err();
        assert!(error.is_data(), "{json}: {error}");
        assert!(error.to_string().contains("expected a NodePath"), "{json}: {error}");
    }
}

#[test]
fn bare_text_is_presented_as_text() {
    let mut rt = Table::new();
    let text: StrDeserializer<ValueError> = "abc".into_deserializer();
    let content = content_from(text).unwrap();
    assert_eq!(content, Content::Str(String::from("abc")));
    let expected = NodePath::from_text(&mut rt, "abc");
    let path = deserialize(&mut rt, content).unwrap();
    assert!(path.equals(&expected, &rt));
    path.destroy(&mut rt);
    expected.destroy(&mut rt);
}

#[test]
fn number_is_refused_with_the_error_of_the_format() {
    let number: U64Deserializer<ValueError> = 5u64.into_deserializer();
    assert_eq!(
        content_from(number).unwrap_err().to_string(),
        "invalid type: integer `5`, expected a NodePath"
    );
    let negative: I64Deserializer<ValueError> = (-3i64).into_deserializer();
    assert_eq!(
        content_from(negative).unwrap_err().to_string(),
        "invalid type: integer `-3`, expected a NodePath"
    );
    let float: F64Deserializer<ValueError> = 1.5f64.into_deserializer();
    assert_eq!(
        content_from(float).unwrap_err().to_string(),
        "invalid type: floating point `1.5`, expected a NodePath"
    );
}

#[test]
fn other_values_are_refused_at_once() {
    let truth: BoolDeserializer<ValueError> = true.into_deserializer();
    assert_eq!(
        content_from(truth).unwrap_err().to_string(),
        "invalid type: boolean `true`, expected a NodePath"
    );
    let unit: UnitDeserializer<ValueError> = ().into_deserializer();
    assert_eq!(
        content_from(unit).unwrap_err().to_string(),
        "invalid type: unit value, expected a NodePath"
    );
    let list: SeqDeserializer<_, ValueError> = vec![1u64, 2].into_deserializer();
    assert_eq!(
        content_from(list).unwrap_err().to_string(),
        "invalid type: sequence, expected a NodePath"
    );
    let entries: MapDeserializer<_, ValueError> =
        MapDeserializer::new(vec![("NodePath", "a")].into_iter());
    assert_eq!(
        content_from(entries).unwrap_err().to_string(),
        "invalid type: map, expected a NodePath"
    );
}

#[test]
fn refusal_of_a_wrapper_reads_as_serde_words_it() {
    let error: ValueError =
        invalid_type(DeserializeError::InvalidType(Unexpected::NewtypeStruct));
    assert_eq!(error.to_string(), "invalid type: newtype struct, expected a NodePath");
}

#[test]
fn written_form_round_trips_through_json() {
    let mut rt = Table::new();
    let path = NodePath::from_text(&mut rt, "Root/Child:position");
    let json = serde_json::to_string(&Written(serialize(&path, &rt))).unwrap();
    assert_eq!(json, "\"Root/Child:position\"");
    let back = deserialize(&mut rt, content_of(&json).unwrap()).unwrap();
    assert!(back.equals(&path, &rt));
    back.destroy(&mut rt);
    path.destroy(&mut rt);
}

//! The JSON that is shown to operators.
use vstd::prelude::*;

verus! {

/// A JSON object, as it is built and printed.
#[verifier::external_type_specification]
#[verifier::external_body]
#[verifier::reject_recursive_types(K)]
#[verifier::reject_recursive_types(V)]
pub struct ExObject<K, V>(serde_json::Map<K, V>);

/// A JSON value inside such an object.
#[verifier::external_type_specification]
#[verifier::external_body]
pub struct ExValue(serde_json::Value);

/// What one field of a JSON object holds.
pub ghost enum Field {
    Int(int),
    Text(Seq<char>),
    Object(Map<Seq<char>, Field>),
}

/// The fields of an object that has none.
pub open spec fn no_fields() -> Map<Seq<char>, Field> {
    Map::empty()
}

/// The fields of a JSON object.
pub uninterp spec fn fields(object: serde_json::Map<String, serde_json::Value>) -> Map<Seq<char>, Field>;

/// The text that the printer gives an object with these fields.
pub uninterp spec fn pretty_text(fields: Map<Seq<char>, Field>) -> Seq<char>;

/// `serde_json::Map::new`: an object without fields.
#[verifier::external_body]
pub(crate) fn new_object() -> (object: serde_json::Map<String, serde_json::Value>)
    ensures
        fields(object) == no_fields(),
{
    serde_json::Map::new()
}

/// `serde_json::Map::insert` with a string: the field holds it, in place of what it held before.
#[verifier::external_body]
pub(crate) fn put_text(object: &mut serde_json::Map<String, serde_json::Value>, key: &str, text: &str)
    ensures
        fields(*final(object)) == fields(*old(object)).insert(key@, Field::Text(text@)),
{
    object.insert(key.into(), text.into());
}

/// `serde_json::Map::insert` with an integer: the field holds it, in place of what it held before.
#[verifier::external_body]
pub(crate) fn put_int(object: &mut serde_json::Map<String, serde_json::Value>, key: &str, number: i64)
    ensures
        fields(*final(object)) == fields(*old(object)).insert(key@, Field::Int(number as int)),
{
    object.insert(key.into(), number.into());
}

/// `serde_json::Map::insert` with an object: the field holds it, in place of what it held before.
#[verifier::external_body]
pub(crate) fn put_object(
    object: &mut serde_json::Map<String, serde_json::Value>,
    key: &str,
    inner: serde_json::Map<String, serde_json::Value>,
)
    ensures
        fields(*final(object)) == fields(*old(object)).insert(key@, Field::Object(fields(inner))),
{
    object.insert(key.into(), inner.into());
}

/// `serde_json::to_string_pretty`: the text is a function of the object's fields alone, since the
/// object keeps them sorted by name, in whichever order they were put. Strings, integers and objects
/// under string names can always be printed.
#[verifier::external_body]
pub(crate) fn print_object(object: &serde_json::Map<String, serde_json::Value>) -> (text: String)
    ensures
        text@ == pretty_text(fields(*object)),
{
    serde_json::to_string_pretty(object).expect("Shouldn't fail")
}

} // verus!

use vstd::prelude::*;

verus! {

#[verifier::external_type_specification]
#[verifier::external_body]
pub struct ExJsonValue(serde_json::Value);

/// An ordered array of JSON values whose contents the library never reads.
/// On the wire it is a bare JSON array.
pub struct OpaqueJsonArray {
    pub values: Vec<serde_json::Value>,
}

impl OpaqueJsonArray {
    pub open spec fn view(&self) -> Seq<serde_json::Value> {
        self.values@
    }
}

pub uninterp spec fn json_array_of(text: Seq<char>) -> Result<Seq<serde_json::Value>, Seq<char>>;

pub uninterp spec fn json_text_of(values: Seq<serde_json::Value>) -> Result<Seq<char>, Seq<char>>;

/// Relies on `serde_json::from_str::<Vec<serde_json::Value>>`: the elements of
/// a JSON array text, or the parser's message where the text is not one. The
/// outcome depends on the text alone.
#[verifier::external_body]
pub(crate) fn parse_json_array(text: &str) -> (r: Result<Vec<serde_json::Value>, String>)
    ensures
        r matches Ok(v) ==> (json_array_of(text@) matches Ok(found) && found == v@),
        r matches Err(e) ==> (json_array_of(text@) matches Err(found) && found == e@),
{
    serde_json::from_str::<Vec<serde_json::Value>>(text).map_err(|e| e.to_string())
}

/// Relies on `serde_json::to_string` on a slice of values: the compact JSON
/// text of a bare array, or the serializer's message. The outcome depends on
/// the values alone.
#[verifier::external_body]
pub(crate) fn write_json_array(values: &Vec<serde_json::Value>) -> (r: Result<String, String>)
    ensures
        r matches Ok(t) ==> (json_text_of(values@) matches Ok(found) && found == t@),
        r matches Err(e) ==> (json_text_of(values@) matches Err(found) && found == e@),
{
    serde_json::to_string(values.as_slice()).map_err(|e| e.to_string())
}

/// Relies on the derived `Clone` of `serde_json::Value`: a copy of each value
/// that is structurally equal to it.
#[verifier::external_body]
pub(crate) fn copy_values(values: &Vec<serde_json::Value>) -> (r: Vec<serde_json::Value>)
    ensures
        r@ == values@,
{
    values.clone()
}

/// Parses a JSON array text into an opaque array.
pub fn parse_array(text: &str) -> (r: Result<OpaqueJsonArray, String>)
    ensures
        r matches Ok(a) ==> (json_array_of(text@) matches Ok(found) && found == a@),
        r matches Err(e) ==> (json_array_of(text@) matches Err(found) && found == e@),
{
    match parse_json_array(text) {
        Ok(values) => Ok(OpaqueJsonArray { values }),
        Err(e) => Err(e),
    }
}

/// Serializes an opaque array as a bare JSON array.
pub fn to_json_text(array: &OpaqueJsonArray) -> (r: Result<String, String>)
    ensures
        r matches Ok(t) ==> (json_text_of(array@) matches Ok(found) && found == t@),
        r matches Err(e) ==> (json_text_of(array@) matches Err(found) && found == e@),
{
    write_json_array(&array.values)
}

} // verus!

use vstd::prelude::*;

verus! {

/// What the decoders read of one member value of a JSON object.
pub enum JsonField {
    /// `null`.
    Null,
    /// A string.
    Text(String),
    /// A boolean, a number, an array or an object.
    Other,
}

/// The mathematical value of a `JsonField`.
pub enum FieldModel {
    Null,
    Text(Seq<char>),
    Other,
}

impl View for JsonField {
    type V = FieldModel;

    open spec fn view(&self) -> FieldModel {
        match self {
            JsonField::Null => FieldModel::Null,
            JsonField::Text(s) => FieldModel::Text(s@),
            JsonField::Other => FieldModel::Other,
        }
    }
}

/// The members of a JSON object, as name and value.
pub open spec fn members_view(ms: Seq<(String, JsonField)>) -> Seq<(Seq<char>, FieldModel)> {
    ms.map_values(|m: (String, JsonField)| (m.0@, m.1@))
}

/// No name stands twice among the members.
pub open spec fn distinct_names(ms: Seq<(Seq<char>, FieldModel)>) -> bool {
    forall|i: int, j: int|
        0 <= i < ms.len() && 0 <= j < ms.len() && i != j ==> #[trigger] ms[i].0 != #[trigger] ms[j].0
}

/// The members of the JSON object that `serde_json::from_str` reads from
/// `body` into a `serde_json::Map`, or `None` where `body` is no JSON object.
pub uninterp spec fn json_members(body: Seq<char>) -> Option<Seq<(Seq<char>, FieldModel)>>;

/// Relies on `serde_json::from_str::<serde_json::Map<String, Value>>`: reads
/// a JSON object into a map, whose keys are distinct; each value is told
/// apart by its variant.
#[verifier::external_body]
pub(crate) fn read_members(body: &str) -> (r: Option<Vec<(String, JsonField)>>)
    ensures
        match r {
            Some(ms) => json_members(body@) == Some(members_view(ms@)) && distinct_names(
                members_view(ms@),
            ),
            None => json_members(body@) is None,
        },
{
    let map = serde_json::from_str::<serde_json::Map<String, serde_json::Value>>(body).ok()?;
    Some(map.into_iter().map(|(k, v)| (k, match v {
        serde_json::Value::Null => JsonField::Null,
        serde_json::Value::String(s) => JsonField::Text(s),
        serde_json::Value::Bool(_) => JsonField::Other,
        serde_json::Value::Number(_) => JsonField::Other,
        serde_json::Value::Array(_) => JsonField::Other,
        serde_json::Value::Object(_) => JsonField::Other,
    })).collect())
}

} // verus!

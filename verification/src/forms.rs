//! Requests to set the value of a form object: the JSON object handed to the document
//! engine, and how the engine's answer is read.

use vstd::prelude::*;
use vstd::string::*;
use crate::error::ToolError;
use crate::params::SetFormValueParams;
use crate::text::{contains_text, occurs_in};

verus! {

/// A scalar member value of a JSON object.
#[derive(Clone, Debug)]
pub enum JsonScalar {
    Int(i32),
    Str(String),
}

/// A scalar member value of a JSON object, with strings by their characters.
pub enum JsonScalarView {
    Int(i32),
    Str(Seq<char>),
}

impl View for JsonScalar {
    type V = JsonScalarView;

    open spec fn view(&self) -> JsonScalarView {
        match self {
            JsonScalar::Int(i) => JsonScalarView::Int(*i),
            JsonScalar::Str(s) => JsonScalarView::Str(s@),
        }
    }
}

/// The members of an object, keys and values by their views.
pub open spec fn members_view(members: Seq<(String, JsonScalar)>) -> Seq<(Seq<char>, JsonScalarView)> {
    members.map_values(|m: (String, JsonScalar)| (m.0@, m.1@))
}

/// The JSON text that `serde_json` writes for a `Value::Object` built by inserting the
/// members in order.
pub uninterp spec fn json_object_text(members: Seq<(Seq<char>, JsonScalarView)>) -> Seq<char>;

/// Writes the members as a `serde_json::Value::Object` with `to_string`: each member is
/// inserted into a `serde_json::Map`, a number made with `Value::from(i32)`, a string with
/// `Value::from(&str)`.
///
/// Trusted: the text written depends on the members alone (the map is ordered by key and
/// strings are escaped by fixed rules); what the text is, is not stated.
#[verifier::external_body]
fn json_object(members: &Vec<(String, JsonScalar)>) -> (r: String)
    ensures
        r@ == json_object_text(members_view(members@)),
{
    let obj: serde_json::Map<String, serde_json::Value> = members
        .iter()
        .map(|(k, v)| match v {
            JsonScalar::Int(i) => (k.clone(), serde_json::Value::from(*i)),
            JsonScalar::Str(s) => (k.clone(), serde_json::Value::from(s.as_str())),
        })
        .collect();
    serde_json::Value::Object(obj).to_string()
}

/// Whether a request names none of value, text and caption.
pub open spec fn names_nothing(p: SetFormValueParams) -> bool {
    p.value is None && p.text is None && p.caption is None
}

/// The members of a form value request: `value`, `text` and `caption`, in that order, for
/// each part that the request gives.
pub open spec fn form_members(p: SetFormValueParams) -> Seq<(Seq<char>, JsonScalarView)> {
    let v = match p.value {
        Some(v) => seq![("value"@, JsonScalarView::Int(v))],
        None => Seq::empty(),
    };
    let t = match p.text {
        Some(t) => seq![("text"@, JsonScalarView::Str(t@))],
        None => Seq::empty(),
    };
    let c = match p.caption {
        Some(c) => seq![("caption"@, JsonScalarView::Str(c@))],
        None => Seq::empty(),
    };
    v + t + c
}

/// The JSON object that sets a form object's value, text and caption, as far as the request
/// gives them; a request that gives none of the three is an error.
pub fn form_value_request(p: &SetFormValueParams) -> (r: Result<String, ToolError>)
    ensures
        names_nothing(*p) ==> r matches Err(ToolError::FormValueMissing),
        !names_nothing(*p) ==> (r matches Ok(s) && s@ == json_object_text(form_members(*p))),
{
    if p.value.is_none() && p.text.is_none() && p.caption.is_none() {
        return Err(ToolError::FormValueMissing);
    }
    let mut members: Vec<(String, JsonScalar)> = Vec::new();
    let ghost v_part: Seq<(Seq<char>, JsonScalarView)> = Seq::empty();
    let ghost t_part: Seq<(Seq<char>, JsonScalarView)> = Seq::empty();
    let ghost c_part: Seq<(Seq<char>, JsonScalarView)> = Seq::empty();
    if let Some(v) = p.value {
        members.push((String::from_str("value"), JsonScalar::Int(v)));
        proof { v_part = seq![("value"@, JsonScalarView::Int(v))]; }
    }
    assert(members_view(members@) =~= v_part);
    if let Some(t) = &p.text {
        members.push((String::from_str("text"), JsonScalar::Str(t.clone())));
        proof { t_part = seq![("text"@, JsonScalarView::Str(t@))]; }
    }
    assert(members_view(members@) =~= v_part + t_part);
    if let Some(c) = &p.caption {
        members.push((String::from_str("caption"), JsonScalar::Str(c.clone())));
        proof { c_part = seq![("caption"@, JsonScalarView::Str(c@))]; }
    }
    assert(members_view(members@) =~= v_part + t_part + c_part);
    assert(members_view(members@) =~= form_members(*p));
    Ok(json_object(&members))
}

/// The engine's answer to a form value request, when it reports success; an answer without
/// `"ok":true` means that there is no form object at the position.
pub fn check_form_result(result: String, p: &SetFormValueParams) -> (r: Result<String, ToolError>)
    ensures
        occurs_in("\"ok\":true"@, result@) ==> r == Ok::<String, ToolError>(result),
        !occurs_in("\"ok\":true"@, result@) ==> (r matches Err(ToolError::NoFormAt { section, para, control })
            && section == p.section && para == p.para && control == p.control),
{
    if contains_text(result.as_str(), "\"ok\":true") {
        Ok(result)
    } else {
        Err(ToolError::NoFormAt { section: p.section, para: p.para, control: p.control })
    }
}

} // verus!

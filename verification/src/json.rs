//! Reading the JSON that compositors and the daemon answer with.
//!
//! The parser is serde_json's; what a document holds is named here by the
//! text of the document, and the code above reads those names.
use std::collections::BTreeMap;

use serde_json::value::RawValue;
use serde_json::Value;
use vstd::prelude::*;

verus! {

/// What `serde_json::from_str` makes of `text` as a list: the parser's
/// message where the text is not JSON, `None` where it is JSON but not an
/// array, and otherwise each element written back as JSON text, in order.
pub uninterp spec fn json_items_of(text: Seq<char>) -> Result<Option<Seq<Seq<char>>>, Seq<char>>;

/// The string that the JSON pointer `pointer` addresses in the document
/// `text`; `None` where the text is not JSON, nothing is there, or what is
/// there is not a string.
pub uninterp spec fn json_str_field(text: Seq<char>, pointer: Seq<char>) -> Option<Seq<char>>;

/// The boolean at `pointer` in `text`, as for [`json_str_field`].
pub uninterp spec fn json_bool_field(text: Seq<char>, pointer: Seq<char>) -> Option<bool>;

/// The unsigned integer at `pointer` in `text`, as for [`json_str_field`].
pub uninterp spec fn json_u64_field(text: Seq<char>, pointer: Seq<char>) -> Option<u64>;

pub open spec fn opt_text(o: Option<String>) -> Option<Seq<char>> {
    match o {
        Some(s) => Some(s@),
        None => None,
    }
}

pub open spec fn items_view(r: Result<Option<Vec<String>>, String>) -> Result<
    Option<Seq<Seq<char>>>,
    Seq<char>,
> {
    match r {
        Err(m) => Err(m@),
        Ok(None) => Ok(None),
        Ok(Some(v)) => Ok(Some(v@.map_values(|s: String| s@))),
    }
}

/// `serde_json::from_str::<serde_json::Value>`, then the elements of the
/// array (each written back with `Value::to_string`). The contract says only
/// that the outcome is the one named by [`json_items_of`] for this text.
#[verifier::external_body]
pub(crate) fn json_items(text: &str) -> (r: Result<Option<Vec<String>>, String>)
    ensures
        items_view(r) == json_items_of(text@),
{
    match serde_json::from_str::<serde_json::Value>(text) {
        Err(e) => Err(e.to_string()),
        Ok(serde_json::Value::Array(items)) => Ok(Some(items.iter().map(|v| v.to_string()).collect())),
        Ok(_) => Ok(None),
    }
}

/// `serde_json::from_str::<serde_json::Value>`, then `Value::pointer` and
/// `Value::as_str`. The contract names the outcome by the text and pointer.
#[verifier::external_body]
pub(crate) fn json_str_at(text: &str, pointer: &str) -> (r: Option<String>)
    ensures
        opt_text(r) == json_str_field(text@, pointer@),
{
    let v = serde_json::from_str::<serde_json::Value>(text).ok()?;
    v.pointer(pointer).and_then(|x| x.as_str()).map(|s| s.to_string())
}

/// `serde_json::from_str::<serde_json::Value>`, then `Value::pointer` and
/// `Value::as_bool`. The contract names the outcome by the text and pointer.
#[verifier::external_body]
pub(crate) fn json_bool_at(text: &str, pointer: &str) -> (r: Option<bool>)
    ensures
        r == json_bool_field(text@, pointer@),
{
    let v = serde_json::from_str::<serde_json::Value>(text).ok()?;
    v.pointer(pointer).and_then(|x| x.as_bool())
}

/// `serde_json::from_str::<serde_json::Value>`, then `Value::pointer` and
/// `Value::as_u64`. The contract names the outcome by the text and pointer.
#[verifier::external_body]
pub(crate) fn json_u64_at(text: &str, pointer: &str) -> (r: Option<u64>)
    ensures
        r == json_u64_field(text@, pointer@),
{
    let v = serde_json::from_str::<serde_json::Value>(text).ok()?;
    v.pointer(pointer).and_then(|x| x.as_u64())
}

/// One level of a JSON document: the source text of each element of an
/// array, or each member of an object with the source text of its value, or
/// a scalar.
#[derive(Debug, Clone)]
pub enum JsonNode {
    Array(Vec<String>),
    Object(Vec<(String, String)>),
    Scalar,
}

pub enum NodeView {
    Array(Seq<Seq<char>>),
    Object(Seq<(Seq<char>, Seq<char>)>),
    Scalar,
}

pub open spec fn texts_view(v: Seq<String>) -> Seq<Seq<char>> {
    v.map_values(|s: String| s@)
}

pub open spec fn members_view(v: Seq<(String, String)>) -> Seq<(Seq<char>, Seq<char>)> {
    v.map_values(|m: (String, String)| (m.0@, m.1@))
}

impl View for JsonNode {
    type V = NodeView;

    open spec fn view(&self) -> NodeView {
        match self {
            JsonNode::Array(items) => NodeView::Array(texts_view(items@)),
            JsonNode::Object(members) => NodeView::Object(members_view(members@)),
            JsonNode::Scalar => NodeView::Scalar,
        }
    }
}

pub open spec fn node_opt_view(o: Option<JsonNode>) -> Option<NodeView> {
    match o {
        Some(n) => Some(n@),
        None => None,
    }
}

/// The top level of the document `text` as `serde_json::from_str` reads it:
/// an array's elements and an object's members (in the order of
/// `BTreeMap`, the last of equal keys kept) by their source text; `None`
/// where the text is not JSON.
pub uninterp spec fn json_node_of(text: Seq<char>) -> Option<NodeView>;

/// `s` as a JSON string literal, as `serde_json::to_string` writes it.
pub uninterp spec fn json_quoted_of(s: Seq<char>) -> Seq<char>;

/// `text` written out by `serde_json::to_string_pretty`; `None` where it is
/// not JSON.
pub uninterp spec fn json_pretty_of(text: Seq<char>) -> Option<Seq<char>>;

/// `serde_json::from_str::<Value>` to check the text and tell its kind, then
/// for an array or object `serde_json::from_str` into `RawValue`s, whose
/// source text `RawValue::get` gives.
#[verifier::external_body]
pub(crate) fn json_node(text: &str) -> (r: Option<JsonNode>)
    ensures
        node_opt_view(r) == json_node_of(text@),
{
    Some(match serde_json::from_str::<Value>(text).ok()? {
        Value::Array(_) => {
            let raw: Vec<Box<RawValue>> = serde_json::from_str(text).ok()?;
            JsonNode::Array(raw.iter().map(|r| r.get().to_string()).collect())
        },
        Value::Object(_) => {
            let raw: BTreeMap<String, Box<RawValue>> = serde_json::from_str(text).ok()?;
            JsonNode::Object(raw.into_iter().map(|(k, r)| (k, r.get().to_string())).collect())
        },
        _ => JsonNode::Scalar,
    })
}

/// `serde_json::to_string` of a string.
#[verifier::external_body]
pub(crate) fn json_quoted(s: &str) -> (r: String)
    ensures
        r@ == json_quoted_of(s@),
{
    serde_json::to_string(s).unwrap_or_default()
}

/// `serde_json::from_str::<Value>`, then `serde_json::to_string_pretty`.
#[verifier::external_body]
pub(crate) fn json_pretty(text: &str) -> (r: Option<String>)
    ensures
        opt_text(r) == json_pretty_of(text@),
{
    serde_json::to_string_pretty(&serde_json::from_str::<Value>(text).ok()?).ok()
}

/// `parts` one after another, with a comma between each two.
pub open spec fn comma_joined(parts: Seq<Seq<char>>) -> Seq<char>
    decreases parts.len(),
{
    if parts.len() == 0 {
        Seq::empty()
    } else if parts.len() == 1 {
        parts[0]
    } else {
        comma_joined(parts.drop_last()) + ","@ + parts.last()
    }
}

/// The JSON array whose elements are the documents `items`.
pub open spec fn array_text(items: Seq<Seq<char>>) -> Seq<char> {
    "["@ + comma_joined(items) + "]"@
}

/// A member of a JSON object: the quoted key, a colon and the value.
pub open spec fn member_text(m: (Seq<char>, Seq<char>)) -> Seq<char> {
    json_quoted_of(m.0) + ":"@ + m.1
}

/// The JSON object with the members `members`, each value a document.
pub open spec fn object_text(members: Seq<(Seq<char>, Seq<char>)>) -> Seq<char> {
    "{"@ + comma_joined(members.map_values(|m: (Seq<char>, Seq<char>)| member_text(m))) + "}"@
}

/// Writes `parts` between `open` and `close`, separated by commas.
fn bracketed(open: &str, parts: &Vec<String>, close: &str) -> (r: String)
    ensures
        r@ == open@ + comma_joined(texts_view(parts@)) + close@,
{
    let ghost all = texts_view(parts@);
    let mut out = String::new();
    let mut i: usize = 0;
    while i < parts.len()
        invariant
            i <= parts.len(),
            all == texts_view(parts@),
            out@ == comma_joined(all.take(i as int)),
        decreases parts.len() - i,
    {
        assert(all.take(i + 1).drop_last() =~= all.take(i as int));
        if i > 0 {
            out.append(",");
        }
        out.append(parts[i].as_str());
        proof {
            reveal_strlit(",");
            if i == 0 {
                assert(out@ =~= all.take(1)[0]);
            } else {
                assert(out@ =~= comma_joined(all.take(i as int)) + ","@ + all.take(i + 1).last());
            }
        }
        i += 1;
    }
    assert(all.take(parts.len() as int) =~= all);
    let mut r = String::new();
    r.append(open);
    r.append(out.as_str());
    r.append(close);
    r
}

/// The compact JSON array of the documents `items`.
pub fn json_array_text(items: &Vec<String>) -> (r: String)
    ensures
        r@ == array_text(texts_view(items@)),
{
    bracketed("[", items, "]")
}

/// The compact JSON object of the members, each value a document.
pub fn json_object_text(members: &Vec<(String, String)>) -> (r: String)
    ensures
        r@ == object_text(members_view(members@)),
{
    let mut parts: Vec<String> = Vec::new();
    let mut i: usize = 0;
    while i < members.len()
        invariant
            i <= members.len(),
            texts_view(parts@) == members_view(members@).take(i as int).map_values(
                |m: (Seq<char>, Seq<char>)| member_text(m),
            ),
        decreases members.len() - i,
    {
        let mut p = json_quoted(members[i].0.as_str());
        p.append(":");
        p.append(members[i].1.as_str());
        assert(members_view(members@)[i as int] == (members@[i as int].0@, members@[i as int].1@));
        assert(p@ == member_text(members_view(members@)[i as int]));
        let ghost before = texts_view(parts@);
        parts.push(p);
        assert(texts_view(parts@) =~= before.push(p@));
        assert(texts_view(parts@) =~= members_view(members@).take(i + 1).map_values(
            |m: (Seq<char>, Seq<char>)| member_text(m),
        ));
        i += 1;
    }
    assert(members_view(members@).take(members.len() as int) =~= members_view(members@));
    bracketed("{", &parts, "}")
}

} // verus!

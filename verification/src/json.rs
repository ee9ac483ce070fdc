//! A JSON document as plain data.
//!
//! Schemas, collections and package descriptions arrive as JSON text. The
//! text is parsed by `serde_json`; what it yields is copied into
//! [`JsonValue`], on which the rest of the library works. A number keeps the
//! text that `serde_json` prints for it, so that no floating-point value is
//! held here.

use crate::text::{parse_i32, parsed_i32, same_text};
use vstd::prelude::*;

verus! {

/// A JSON value. The members of an object keep the order of the document.
#[derive(Debug, PartialEq)]
pub enum JsonValue {
    Null,
    Bool(bool),
    Number(String),
    Text(String),
    Array(Vec<JsonValue>),
    Object(Vec<(String, JsonValue)>),
}

/// A JSON value as contracts see it.
pub enum JsonView {
    Null,
    Bool(bool),
    Number(Seq<char>),
    Text(Seq<char>),
    Array(Seq<JsonView>),
    Object(Seq<(Seq<char>, JsonView)>),
}

/// What a value holds, as contracts see it.
pub open spec fn json_view(v: JsonValue) -> JsonView
    decreases v,
{
    match v {
        JsonValue::Null => JsonView::Null,
        JsonValue::Bool(b) => JsonView::Bool(b),
        JsonValue::Number(n) => JsonView::Number(n@),
        JsonValue::Text(s) => JsonView::Text(s@),
        JsonValue::Array(a) => JsonView::Array(
            Seq::new(
                a@.len(),
                |i: int|
                    if 0 <= i < a@.len() {
                        json_view(a@[i])
                    } else {
                        JsonView::Null
                    },
            ),
        ),
        JsonValue::Object(o) => JsonView::Object(
            Seq::new(
                o@.len(),
                |i: int|
                    if 0 <= i < o@.len() {
                        (o@[i].0@, json_view(o@[i].1))
                    } else {
                        (Seq::empty(), JsonView::Null)
                    },
            ),
        ),
    }
}

impl View for JsonValue {
    type V = JsonView;

    open spec fn view(&self) -> JsonView {
        json_view(*self)
    }
}

/// The value of the first member named `key`.
pub open spec fn lookup(members: Seq<(Seq<char>, JsonView)>, key: Seq<char>) -> Option<JsonView>
    decreases members.len(),
{
    if members.len() == 0 {
        None
    } else {
        match lookup(members.drop_last(), key) {
            Some(v) => Some(v),
            None => if members.last().0 == key {
                Some(members.last().1)
            } else {
                None
            },
        }
    }
}

/// The texts of a list of values, if every one of them is a text.
pub open spec fn all_texts(items: Seq<JsonView>) -> Option<Seq<Seq<char>>>
    decreases items.len(),
{
    if items.len() == 0 {
        Some(Seq::empty())
    } else {
        match (all_texts(items.drop_last()), items.last()) {
            (Some(head), JsonView::Text(s)) => Some(head.push(s)),
            _ => None,
        }
    }
}

impl JsonView {
    /// The member `key` of an object; nothing for any other value.
    pub open spec fn member(self, key: Seq<char>) -> Option<JsonView> {
        match self {
            JsonView::Object(members) => lookup(members, key),
            _ => None,
        }
    }

    /// The member `key`, where it is there and is not `null`.
    pub open spec fn present(self, key: Seq<char>) -> Option<JsonView> {
        match self.member(key) {
            Some(JsonView::Null) => None,
            other => other,
        }
    }

    pub open spec fn text(self) -> Option<Seq<char>> {
        match self {
            JsonView::Text(s) => Some(s),
            _ => None,
        }
    }

    pub open spec fn boolean(self) -> Option<bool> {
        match self {
            JsonView::Bool(b) => Some(b),
            _ => None,
        }
    }

    /// The value of a whole number that fits in 32 bits.
    pub open spec fn int32(self) -> Option<i32> {
        match self {
            JsonView::Number(n) => parsed_i32(n),
            _ => None,
        }
    }

    /// The texts of an array that holds texts only.
    pub open spec fn text_list(self) -> Option<Seq<Seq<char>>> {
        match self {
            JsonView::Array(items) => all_texts(items),
            _ => None,
        }
    }
}

/// The views of optional references, as contracts compare them.
pub open spec fn same_value(r: Option<&JsonValue>, v: Option<JsonView>) -> bool {
    match v {
        Some(x) => r is Some && r->0@ == x,
        None => r is None,
    }
}

/// The view of an optional text.
pub open spec fn opt_text(s: Option<String>) -> Option<Seq<char>> {
    match s {
        Some(x) => Some(x@),
        None => None,
    }
}

impl JsonValue {
    /// The member `key` of an object.
    pub fn get(&self, key: &str) -> (r: Option<&JsonValue>)
        ensures
            same_value(r, self@.member(key@)),
    {
        match self {
            JsonValue::Object(o) => {
                let ghost members = match self@ {
                    JsonView::Object(m) => m,
                    _ => Seq::empty(),
                };
                let mut i: usize = 0;
                while i < o.len()
                    invariant
                        i <= o.len(),
                        self@ == JsonView::Object(members),
                        members.len() == o@.len(),
                        forall|j: int| 0 <= j < o@.len() ==> members[j] == (o@[j].0@, o@[j].1@),
                        lookup(members.take(i as int), key@) is None,
                    decreases o.len() - i,
                {
                    proof {
                        assert(members.take(i + 1).drop_last() == members.take(i as int));
                    }
                    if same_text(o[i].0.as_str(), key) {
                        proof {
                            lemma_lookup_extends(members, key@, i + 1);
                        }
                        return Some(&o[i].1);
                    }
                    i += 1;
                }
                proof {
                    assert(members.take(o.len() as int) == members);
                }
                None
            },
            _ => None,
        }
    }

    /// The member `key`, where it is there and is not `null`.
    pub fn get_present(&self, key: &str) -> (r: Option<&JsonValue>)
        ensures
            same_value(r, self@.present(key@)),
    {
        match self.get(key) {
            Some(JsonValue::Null) => None,
            other => other,
        }
    }

    pub fn as_text(&self) -> (r: Option<&String>)
        ensures
            match self@.text() {
                Some(s) => r is Some && r->0@ == s,
                None => r is None,
            },
    {
        match self {
            JsonValue::Text(s) => Some(s),
            _ => None,
        }
    }

    pub fn as_bool(&self) -> (r: Option<bool>)
        ensures
            r == self@.boolean(),
    {
        match self {
            JsonValue::Bool(b) => Some(*b),
            _ => None,
        }
    }

    /// The value of a whole number that fits in 32 bits.
    pub fn as_i32(&self) -> (r: Option<i32>)
        ensures
            r == self@.int32(),
    {
        match self {
            JsonValue::Number(n) => parse_i32(n.as_str()),
            _ => None,
        }
    }

    pub fn is_object(&self) -> (r: bool)
        ensures
            r == (self@ is Object),
    {
        match self {
            JsonValue::Object(_) => true,
            _ => false,
        }
    }

    /// The texts of an array that holds texts only.
    pub fn as_texts(&self) -> (r: Option<Vec<String>>)
        ensures
            match self@.text_list() {
                Some(l) => r is Some && crate::text::texts(r->0@) == l,
                None => r is None,
            },
    {
        match self {
            JsonValue::Array(a) => {
                let ghost items = match self@ {
                    JsonView::Array(x) => x,
                    _ => Seq::empty(),
                };
                let mut out: Vec<String> = Vec::new();
                let mut i: usize = 0;
                assert(crate::text::texts(out@) =~= Seq::empty());
                while i < a.len()
                    invariant
                        i <= a.len(),
                        self@ == JsonView::Array(items),
                        items.len() == a@.len(),
                        forall|j: int| 0 <= j < a@.len() ==> items[j] == a@[j]@,
                        all_texts(items.take(i as int)) == Some(crate::text::texts(out@)),
                    decreases a.len() - i,
                {
                    proof {
                        assert(items.take(i + 1).drop_last() == items.take(i as int));
                    }
                    match &a[i] {
                        JsonValue::Text(s) => {
                            let ghost before = crate::text::texts(out@);
                            out.push(s.clone());
                            assert(crate::text::texts(out@) =~= before.push(s@));
                        },
                        _ => {
                            proof {
                                lemma_all_texts_prefix(items, i + 1);
                            }
                            return None;
                        },
                    }
                    i += 1;
                }
                proof {
                    assert(items.take(a.len() as int) == items);
                }
                Some(out)
            },
            _ => None,
        }
    }
}

impl JsonValue {
    /// A copy with the same content.
    pub fn duplicate(&self) -> (r: JsonValue)
        ensures
            r@ == self@,
        decreases self,
    {
        match self {
            JsonValue::Null => JsonValue::Null,
            JsonValue::Bool(b) => JsonValue::Bool(*b),
            JsonValue::Number(n) => JsonValue::Number(n.clone()),
            JsonValue::Text(s) => JsonValue::Text(s.clone()),
            JsonValue::Array(a) => {
                let mut out: Vec<JsonValue> = Vec::new();
                let mut i: usize = 0;
                while i < a.len()
                    invariant
                        i <= a.len(),
                        *self == JsonValue::Array(*a),
                        out@.len() == i,
                        forall|j: int| 0 <= j < i ==> out@[j]@ == a@[j]@,
                    decreases a.len() - i,
                {
                    proof {
                        let ghost whole = *self;
                        let ghost list = whole->Array_0;
                        assert(decreases_to!(whole => list));
                        assert(decreases_to!(list => list@));
                        assert(decreases_to!(list@ => list@[i as int]));
                    }
                    let item = a[i].duplicate();
                    out.push(item);
                    i += 1;
                }
                let r = JsonValue::Array(out);
                assert(r@->Array_0 =~= self@->Array_0);
                r
            },
            JsonValue::Object(o) => {
                let mut out: Vec<(String, JsonValue)> = Vec::new();
                let mut i: usize = 0;
                while i < o.len()
                    invariant
                        i <= o.len(),
                        *self == JsonValue::Object(*o),
                        out@.len() == i,
                        forall|j: int|
                            0 <= j < i ==> out@[j].0@ == o@[j].0@ && out@[j].1@ == o@[j].1@,
                    decreases o.len() - i,
                {
                    proof {
                        let ghost whole = *self;
                        let ghost list = whole->Object_0;
                        assert(decreases_to!(whole => list));
                        assert(decreases_to!(list => list@));
                        assert(decreases_to!(list@ => list@[i as int]));
                        assert(decreases_to!(list@[i as int] => list@[i as int].1));
                    }
                    let value = o[i].1.duplicate();
                    out.push((o[i].0.clone(), value));
                    i += 1;
                }
                let r = JsonValue::Object(out);
                assert(r@->Object_0 =~= self@->Object_0);
                r
            },
        }
    }
}

/// A member found among the first `n` is the member found among all.
pub proof fn lemma_lookup_extends(members: Seq<(Seq<char>, JsonView)>, key: Seq<char>, n: int)
    requires
        0 <= n <= members.len(),
        lookup(members.take(n), key) is Some,
    ensures
        lookup(members, key) == lookup(members.take(n), key),
    decreases members.len() - n,
{
    if n < members.len() {
        assert(members.take(n + 1).drop_last() == members.take(n));
        lemma_lookup_extends(members, key, n + 1);
    } else {
        assert(members.take(n) == members);
    }
}

/// A list is not made of texts where one of its beginnings is not.
pub proof fn lemma_all_texts_prefix(items: Seq<JsonView>, n: int)
    requires
        0 <= n <= items.len(),
        all_texts(items.take(n)) is None,
    ensures
        all_texts(items) is None,
    decreases items.len() - n,
{
    if n < items.len() {
        assert(items.take(n + 1).drop_last() == items.take(n));
        lemma_all_texts_prefix(items, n + 1);
    } else {
        assert(items.take(n) == items);
    }
}

#[verifier::external_type_specification]
#[verifier::external_body]
pub struct ExOutsideJson(serde_json::Value);

/// What a value of `serde_json` holds.
pub uninterp spec fn held_by(v: serde_json::Value) -> JsonView;

/// The document that `serde_json::from_str` reads from `text`, or nothing
/// where it reports an error.
pub uninterp spec fn json_document(text: Seq<char>) -> Option<JsonView>;

/// Calls `serde_json::from_str` for a `serde_json::Value`. The parser's
/// outcome depends on the text alone: a value, or an error, which is dropped.
#[verifier::external_body]
fn read_outside(text: &str) -> (r: Option<serde_json::Value>)
    ensures
        match r {
            Some(v) => json_document(text@) == Some(held_by(v)),
            None => json_document(text@) is None,
        },
{
    serde_json::from_str::<serde_json::Value>(text).ok()
}

/// Copies a value of `serde_json` variant by variant: `Null`, `Bool`,
/// `String`, `Array` and `Object` as they are, the members of an object in the
/// order in which the map hands them out, and a `Number` as the text that its
/// `Display` prints.
#[verifier::external_body]
fn copy_outside(v: &serde_json::Value) -> (r: JsonValue)
    ensures
        r@ == held_by(*v),
{
    match v {
        serde_json::Value::Null => JsonValue::Null,
        serde_json::Value::Bool(b) => JsonValue::Bool(*b),
        serde_json::Value::Number(n) => JsonValue::Number(n.to_string()),
        serde_json::Value::String(s) => JsonValue::Text(s.clone()),
        serde_json::Value::Array(a) => JsonValue::Array(a.iter().map(copy_outside).collect()),
        serde_json::Value::Object(o) => JsonValue::Object(
            o.iter().map(|(k, x)| (k.clone(), copy_outside(x))).collect(),
        ),
    }
}

/// Reads a JSON document.
pub fn parse_json(text: &str) -> (r: Option<JsonValue>)
    ensures
        match json_document(text@) {
            Some(v) => r is Some && r->0@ == v,
            None => r is None,
        },
{
    match read_outside(text) {
        Some(v) => Some(copy_outside(&v)),
        None => None,
    }
}

/// The text that `serde_json` writes, in its pretty form, for the document
/// that it reads from `text`; nothing where it reads none.
pub uninterp spec fn json_pretty(text: Seq<char>) -> Option<Seq<char>>;

/// What `serde_json` says is wrong with `text`; nothing where it reads a
/// document from it.
pub uninterp spec fn json_fault(text: Seq<char>) -> Option<Seq<char>>;

/// Reads `text` with `serde_json::from_str` and writes the value again with
/// `serde_json::to_string_pretty`. An error of either step gives nothing;
/// there is a result exactly where there is a document.
#[verifier::external_body]
pub(crate) fn pretty_json(text: &str) -> (r: Option<String>)
    ensures
        opt_text(r) == json_pretty(text@),
        r is Some <==> json_document(text@) is Some,
{
    serde_json::from_str::<serde_json::Value>(text).ok().and_then(
        |v| serde_json::to_string_pretty(&v).ok(),
    )
}

/// Reads `text` with `serde_json::from_str` and hands back the message of
/// the error, as its `Display` prints it. There is a message exactly where
/// there is no document.
#[verifier::external_body]
pub(crate) fn json_fault_of(text: &str) -> (r: Option<String>)
    ensures
        opt_text(r) == json_fault(text@),
        r is Some <==> json_document(text@) is None,
{
    serde_json::from_str::<serde_json::Value>(text).err().map(|e| e.to_string())
}

} // verus!

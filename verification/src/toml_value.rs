//! A TOML document as plain data.
//!
//! Profiles are stored as TOML. The text is parsed by the `toml` crate; what
//! it yields is copied into [`TomlValue`]. Numbers with decimals and dates
//! keep the text that the crate prints for them.

use crate::json::opt_text;
use crate::text::same_text;
use vstd::prelude::*;

verus! {

/// A TOML value.
#[derive(Debug, PartialEq)]
pub enum TomlValue {
    Text(String),
    Integer(i64),
    Float(String),
    Boolean(bool),
    Datetime(String),
    Array(Vec<TomlValue>),
    Table(Vec<(String, TomlValue)>),
}

/// A TOML value as contracts see it.
pub enum TomlView {
    Text(Seq<char>),
    Integer(i64),
    Float(Seq<char>),
    Boolean(bool),
    Datetime(Seq<char>),
    Array(Seq<TomlView>),
    Table(Seq<(Seq<char>, TomlView)>),
}

/// What a value holds, as contracts see it.
pub open spec fn toml_view(v: TomlValue) -> TomlView
    decreases v,
{
    match v {
        TomlValue::Text(s) => TomlView::Text(s@),
        TomlValue::Integer(i) => TomlView::Integer(i),
        TomlValue::Float(f) => TomlView::Float(f@),
        TomlValue::Boolean(b) => TomlView::Boolean(b),
        TomlValue::Datetime(d) => TomlView::Datetime(d@),
        TomlValue::Array(a) => TomlView::Array(
            Seq::new(
                a@.len(),
                |i: int|
                    if 0 <= i < a@.len() {
                        toml_view(a@[i])
                    } else {
                        TomlView::Boolean(false)
                    },
            ),
        ),
        TomlValue::Table(t) => TomlView::Table(
            Seq::new(
                t@.len(),
                |i: int|
                    if 0 <= i < t@.len() {
                        (t@[i].0@, toml_view(t@[i].1))
                    } else {
                        (Seq::empty(), TomlView::Boolean(false))
                    },
            ),
        ),
    }
}

impl View for TomlValue {
    type V = TomlView;

    open spec fn view(&self) -> TomlView {
        toml_view(*self)
    }
}

/// The value of the first entry named `key`.
pub open spec fn entry(entries: Seq<(Seq<char>, TomlView)>, key: Seq<char>) -> Option<TomlView>
    decreases entries.len(),
{
    if entries.len() == 0 {
        None
    } else {
        match entry(entries.drop_last(), key) {
            Some(v) => Some(v),
            None => if entries.last().0 == key {
                Some(entries.last().1)
            } else {
                None
            },
        }
    }
}

/// An entry found among the first `n` is the entry found among all.
pub proof fn lemma_entry_extends(entries: Seq<(Seq<char>, TomlView)>, key: Seq<char>, n: int)
    requires
        0 <= n <= entries.len(),
        entry(entries.take(n), key) is Some,
    ensures
        entry(entries, key) == entry(entries.take(n), key),
    decreases entries.len() - n,
{
    if n < entries.len() {
        assert(entries.take(n + 1).drop_last() == entries.take(n));
        lemma_entry_extends(entries, key, n + 1);
    } else {
        assert(entries.take(n) == entries);
    }
}

impl TomlView {
    /// The entry `key` of a table; nothing for any other value.
    pub open spec fn member(self, key: Seq<char>) -> Option<TomlView> {
        match self {
            TomlView::Table(entries) => entry(entries, key),
            _ => None,
        }
    }
}

impl TomlValue {
    /// The entry `key` of a table.
    pub fn get(&self, key: &str) -> (r: Option<&TomlValue>)
        ensures
            match self@.member(key@) {
                Some(v) => r is Some && r->0@ == v,
                None => r is None,
            },
    {
        match self {
            TomlValue::Table(t) => {
                let ghost entries = self@->Table_0;
                let mut i: usize = 0;
                while i < t.len()
                    invariant
                        i <= t.len(),
                        self@ == TomlView::Table(entries),
                        entries.len() == t@.len(),
                        forall|j: int| 0 <= j < t@.len() ==> entries[j] == (t@[j].0@, t@[j].1@),
                        entry(entries.take(i as int), key@) is None,
                    decreases t.len() - i,
                {
                    proof {
                        assert(entries.take(i + 1).drop_last() == entries.take(i as int));
                    }
                    if same_text(t[i].0.as_str(), key) {
                        proof {
                            lemma_entry_extends(entries, key@, i + 1);
                        }
                        return Some(&t[i].1);
                    }
                    i += 1;
                }
                proof {
                    assert(entries.take(t.len() as int) == entries);
                }
                None
            },
            _ => None,
        }
    }
}

#[verifier::external_type_specification]
#[verifier::external_body]
pub struct ExOutsideToml(toml::Value);

/// What a value of the `toml` crate holds.
pub uninterp spec fn toml_held_by(v: toml::Value) -> TomlView;

/// The document that the `toml` crate reads from `text`, or nothing where it
/// reports an error.
pub uninterp spec fn toml_document(text: Seq<char>) -> Option<TomlView>;

/// The text that the `toml` crate writes, in its pretty form, for the
/// document that it reads from `text`; nothing where it reports an error.
pub uninterp spec fn toml_pretty(text: Seq<char>) -> Option<Seq<char>>;

/// Parses `text` as a `toml::Table` (the `FromStr` of that type) and wraps
/// the table in `toml::Value::Table`. The outcome depends on the text alone:
/// a table, or an error, which is dropped.
#[verifier::external_body]
fn read_outside(text: &str) -> (r: Option<toml::Value>)
    ensures
        match r {
            Some(v) => toml_document(text@) == Some(toml_held_by(v)),
            None => toml_document(text@) is None,
        },
{
    text.parse::<toml::Table>().ok().map(toml::Value::Table)
}

/// Copies a value of the `toml` crate variant by variant: `String`,
/// `Integer`, `Boolean`, `Array` and `Table` as they are, the entries of a
/// table in the order in which the map hands them out, and a `Float` and a
/// `Datetime` as the text that their `Display` prints.
#[verifier::external_body]
fn copy_outside(v: &toml::Value) -> (r: TomlValue)
    ensures
        r@ == toml_held_by(*v),
{
    match v {
        toml::Value::String(s) => TomlValue::Text(s.clone()),
        toml::Value::Integer(i) => TomlValue::Integer(*i),
        toml::Value::Float(f) => TomlValue::Float(f.to_string()),
        toml::Value::Boolean(b) => TomlValue::Boolean(*b),
        toml::Value::Datetime(d) => TomlValue::Datetime(d.to_string()),
        toml::Value::Array(a) => TomlValue::Array(a.iter().map(copy_outside).collect()),
        toml::Value::Table(t) => TomlValue::Table(
            t.iter().map(|(k, x)| (k.clone(), copy_outside(x))).collect(),
        ),
    }
}

/// Parses `text` as a `toml::Table` and writes the table again with
/// `toml::to_string_pretty`. An error of either step gives nothing.
#[verifier::external_body]
pub(crate) fn rewrite_outside(text: &str) -> (r: Option<String>)
    ensures
        opt_text(r) == toml_pretty(text@),
{
    text.parse::<toml::Table>().ok().and_then(|t| toml::to_string_pretty(&t).ok())
}

/// Reads a TOML document.
pub fn parse_toml(text: &str) -> (r: Option<TomlValue>)
    ensures
        match toml_document(text@) {
            Some(v) => r is Some && r->0@ == v,
            None => r is None,
        },
{
    match read_outside(text) {
        Some(v) => Some(copy_outside(&v)),
        None => None,
    }
}

} // verus!

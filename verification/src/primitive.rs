//! The plain values that a schema can give as a default or as a choice.

use crate::json::{all_texts, JsonValue, JsonView};
use crate::schema_parsing::TimeInput;
use crate::text::{
    concat3, join, joined, parse_i32, parsed_i32, pieces, signed_decimal, signed_text, split,
    texts,
};
use vstd::prelude::*;

verus! {

/// A value of one of the shapes that the form understands. A number that is
/// not a whole number of 32 bits keeps the text that the document writes for
/// it; a value of any other shape is `Unknown`.
#[derive(Debug, Clone, PartialEq)]
pub enum Primitive {
    Str(String),
    Int(i32),
    Float(String),
    Bool(bool),
    StringVec(Vec<String>),
    Time(TimeInput),
    Unknown,
}

pub enum PrimitiveView {
    Str(Seq<char>),
    Int(i32),
    Float(Seq<char>),
    Bool(bool),
    StringVec(Seq<Seq<char>>),
    Time(TimeInput),
    Unknown,
}

impl View for Primitive {
    type V = PrimitiveView;

    open spec fn view(&self) -> PrimitiveView {
        match self {
            Primitive::Str(s) => PrimitiveView::Str(s@),
            Primitive::Int(i) => PrimitiveView::Int(*i),
            Primitive::Float(f) => PrimitiveView::Float(f@),
            Primitive::Bool(b) => PrimitiveView::Bool(*b),
            Primitive::StringVec(v) => PrimitiveView::StringVec(texts(v@)),
            Primitive::Time(t) => PrimitiveView::Time(*t),
            Primitive::Unknown => PrimitiveView::Unknown,
        }
    }
}

/// The view of a value that may not be there.
pub open spec fn opt_primitive(p: Option<Primitive>) -> Option<PrimitiveView> {
    match p {
        Some(x) => Some(x@),
        None => None,
    }
}

/// The time that a list of three whole numbers gives.
pub open spec fn time_of_list(items: Seq<JsonView>) -> Option<TimeInput> {
    if items.len() == 3 {
        match (items[0].int32(), items[1].int32(), items[2].int32()) {
            (Some(h), Some(m), Some(s)) => Some(TimeInput(h, m, s)),
            _ => None,
        }
    } else {
        None
    }
}

/// The whole number that `s` writes, or zero.
pub open spec fn number_or_zero(s: Seq<char>) -> i32 {
    match parsed_i32(s) {
        Some(i) => i,
        None => 0,
    }
}

/// The time that a text of the form `h:m:s` gives: each part that is not a
/// whole number counts as zero, and a text that has not three parts gives
/// midnight.
pub open spec fn time_of_text(s: Seq<char>) -> TimeInput {
    let parts = pieces(s, ':');
    if parts.len() == 3 {
        TimeInput(number_or_zero(parts[0]), number_or_zero(parts[1]), number_or_zero(parts[2]))
    } else {
        TimeInput(0, 0, 0)
    }
}

impl PrimitiveView {
    /// The value that a JSON value stands for. The shapes are tried in this
    /// order: text, whole number, other number, truth value, list of texts,
    /// list of three whole numbers.
    pub open spec fn of(v: JsonView) -> PrimitiveView {
        match v {
            JsonView::Text(s) => PrimitiveView::Str(s),
            JsonView::Number(n) => match parsed_i32(n) {
                Some(i) => PrimitiveView::Int(i),
                None => PrimitiveView::Float(n),
            },
            JsonView::Bool(b) => PrimitiveView::Bool(b),
            JsonView::Array(items) => match all_texts(items) {
                Some(l) => PrimitiveView::StringVec(l),
                None => match time_of_list(items) {
                    Some(t) => PrimitiveView::Time(t),
                    None => PrimitiveView::Unknown,
                },
            },
            _ => PrimitiveView::Unknown,
        }
    }

    /// The value as it is shown.
    pub open spec fn shown(self) -> Seq<char> {
        match self {
            PrimitiveView::Str(s) => s,
            PrimitiveView::Bool(b) => if b {
                "true"@
            } else {
                "false"@
            },
            PrimitiveView::Int(i) => signed_decimal(i as int),
            PrimitiveView::Float(f) => f,
            PrimitiveView::StringVec(l) => joined(l, ","@),
            PrimitiveView::Time(t) => signed_decimal(t.0 as int) + ":"@ + signed_decimal(t.1 as int)
                + ":"@ + signed_decimal(t.2 as int),
            PrimitiveView::Unknown => Seq::empty(),
        }
    }

    /// The value where a text is wanted: a text or a number as it is written,
    /// the empty text for anything else.
    pub open spec fn text(self) -> Seq<char> {
        match self {
            PrimitiveView::Str(s) => s,
            PrimitiveView::Float(f) => f,
            PrimitiveView::Int(i) => signed_decimal(i as int),
            _ => Seq::empty(),
        }
    }

    /// The value where a truth value is wanted.
    pub open spec fn truth(self) -> bool {
        match self {
            PrimitiveView::Bool(b) => b,
            _ => false,
        }
    }

    /// The value where a list of texts is wanted.
    pub open spec fn list(self) -> Seq<Seq<char>> {
        match self {
            PrimitiveView::StringVec(l) => l,
            _ => Seq::empty(),
        }
    }

    /// The value where a time is wanted: a text is read as `h:m:s`, anything
    /// else gives midnight.
    pub open spec fn time(self) -> TimeInput {
        match self {
            PrimitiveView::Str(s) => time_of_text(s),
            _ => TimeInput(0, 0, 0),
        }
    }
}

/// A copy of a list of texts.
pub fn copy_texts(v: &Vec<String>) -> (r: Vec<String>)
    ensures
        texts(r@) == texts(v@),
{
    let mut out: Vec<String> = Vec::new();
    let mut i: usize = 0;
    while i < v.len()
        invariant
            i <= v.len(),
            texts(out@) =~= texts(v@).take(i as int),
        decreases v.len() - i,
    {
        let ghost before = texts(out@);
        out.push(v[i].clone());
        proof {
            assert(texts(out@) =~= before.push(v@[i as int]@));
            assert(texts(v@).take(i + 1) =~= texts(v@).take(i as int).push(v@[i as int]@));
        }
        i += 1;
    }
    proof {
        assert(texts(v@).take(v.len() as int) == texts(v@));
    }
    out
}

impl Default for Primitive {
    fn default() -> (r: Self)
        ensures
            r@ == PrimitiveView::Str(Seq::empty()),
    {
        Primitive::Str(String::new())
    }
}

impl Primitive {
    /// The value that a JSON value stands for.
    pub fn from_json(v: &JsonValue) -> (r: Primitive)
        ensures
            r@ == PrimitiveView::of(v@),
    {
        match v {
            JsonValue::Text(s) => Primitive::Str(s.clone()),
            JsonValue::Number(n) => match parse_i32(n.as_str()) {
                Some(i) => Primitive::Int(i),
                None => Primitive::Float(n.clone()),
            },
            JsonValue::Bool(b) => Primitive::Bool(*b),
            JsonValue::Array(a) => {
                match v.as_texts() {
                    Some(l) => Primitive::StringVec(l),
                    None => {
                        if a.len() == 3 {
                            match (a[0].as_i32(), a[1].as_i32(), a[2].as_i32()) {
                                (Some(h), Some(m), Some(s)) => Primitive::Time(TimeInput(h, m, s)),
                                _ => Primitive::Unknown,
                            }
                        } else {
                            Primitive::Unknown
                        }
                    },
                }
            },
            _ => Primitive::Unknown,
        }
    }

    /// A copy with the same content.
    pub fn duplicate(&self) -> (r: Primitive)
        ensures
            r@ == self@,
    {
        match self {
            Primitive::Str(s) => Primitive::Str(s.clone()),
            Primitive::Int(i) => Primitive::Int(*i),
            Primitive::Float(f) => Primitive::Float(f.clone()),
            Primitive::Bool(b) => Primitive::Bool(*b),
            Primitive::StringVec(v) => Primitive::StringVec(copy_texts(v)),
            Primitive::Time(t) => Primitive::Time(*t),
            Primitive::Unknown => Primitive::Unknown,
        }
    }

    /// The value as it is shown.
    pub fn to_string(&self) -> (r: String)
        ensures
            r@ == self@.shown(),
    {
        match self {
            Primitive::Str(s) => s.clone(),
            Primitive::Bool(b) => if *b {
                "true".to_owned()
            } else {
                "false".to_owned()
            },
            Primitive::Int(n) => signed_text(*n),
            Primitive::Float(n) => n.clone(),
            Primitive::StringVec(v) => join(v, ","),
            Primitive::Time(t) => {
                let h = signed_text(t.0);
                let m = signed_text(t.1);
                let s = signed_text(t.2);
                let head = concat3(h.as_str(), ":", m.as_str());
                concat3(head.as_str(), ":", s.as_str())
            },
            Primitive::Unknown => String::new(),
        }
    }

    /// The value where a text is wanted.
    pub fn into_string(self) -> (r: String)
        ensures
            r@ == self@.text(),
    {
        match self {
            Primitive::Str(s) => s,
            Primitive::Float(f) => f,
            Primitive::Int(i) => signed_text(i),
            _ => String::new(),
        }
    }

    /// The value where a truth value is wanted.
    pub fn into_bool(self) -> (r: bool)
        ensures
            r == self@.truth(),
    {
        match self {
            Primitive::Bool(b) => b,
            _ => false,
        }
    }

    /// The value where a list of texts is wanted.
    pub fn into_strings(self) -> (r: Vec<String>)
        ensures
            texts(r@) == self@.list(),
    {
        match self {
            Primitive::StringVec(v) => v,
            _ => {
                let none: Vec<String> = Vec::new();
                assert(texts(none@) =~= Seq::empty());
                none
            },
        }
    }

    /// The value where a time is wanted.
    pub fn into_time(self) -> (r: TimeInput)
        ensures
            r == self@.time(),
    {
        match self {
            Primitive::Str(s) => parse_time(s.as_str()),
            _ => TimeInput(0, 0, 0),
        }
    }
}

/// Reads a whole number, zero where there is none.
pub fn parse_or_zero(s: &str) -> (r: i32)
    ensures
        r == number_or_zero(s@),
{
    match parse_i32(s) {
        Some(i) => i,
        None => 0,
    }
}

/// Reads a time written as `h:m:s`.
pub fn parse_time(s: &str) -> (r: TimeInput)
    ensures
        r == time_of_text(s@),
{
    let parts = split(s, ':');
    if parts.len() != 3 {
        return TimeInput(0, 0, 0);
    }
    assert(texts(parts@)[0] == parts@[0]@);
    assert(texts(parts@)[1] == parts@[1]@);
    assert(texts(parts@)[2] == parts@[2]@);
    TimeInput(
        parse_or_zero(parts[0].as_str()),
        parse_or_zero(parts[1].as_str()),
        parse_or_zero(parts[2].as_str()),
    )
}

} // verus!

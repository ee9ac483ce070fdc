//! Showing the schema of a schematic as text.

use crate::json::{json_document, json_pretty, parse_json, pretty_json, JsonValue, JsonView};
use vstd::prelude::*;

verus! {

#[derive(Debug)]
pub enum SchemaViewInput {
    Show(String),
}

/// What the view tells its owner: nothing yet, so its only variant is never
/// built.
#[derive(Debug)]
pub enum SchemaViewOutput {
    Never,
}

/// The view of a schema.
#[derive(Debug)]
pub struct SchemaViewModel {
    pub hidden: bool,
    pub json: String,
    pub title: String,
}

/// The title that a document gives itself; empty where it gives none.
pub open spec fn title_of(doc: JsonView) -> Seq<char> {
    match doc.member("title"@) {
        Some(JsonView::Text(s)) => s,
        _ => Seq::empty(),
    }
}

impl SchemaViewModel {
    /// A view that is not shown.
    pub fn new() -> (r: Self)
        ensures
            r.hidden,
            r.json@.len() == 0,
            r.title@.len() == 0,
    {
        SchemaViewModel { hidden: true, title: String::new(), json: String::new() }
    }

    /// Takes a message. `Show` brings the path of the schema; `content` is
    /// what the file holds. A file that holds JSON is shown, laid out anew,
    /// under its title; any other file changes nothing, which the result
    /// says.
    pub fn update(&mut self, message: SchemaViewInput, content: &str) -> (r: bool)
        ensures
            r == (json_document(content@) is Some),
            match json_document(content@) {
                Some(doc) => {
                    &&& !final(self).hidden
                    &&& final(self).title@ == title_of(doc)
                    &&& Some(final(self).json@) == json_pretty(content@)
                },
                None => {
                    &&& final(self).hidden == old(self).hidden
                    &&& final(self).title == old(self).title
                    &&& final(self).json == old(self).json
                },
            },
    {
        match message {
            SchemaViewInput::Show(_path) => {
                match (parse_json(content), pretty_json(content)) {
                    (Some(schema), Some(text)) => {
                        self.title = match schema.get("title") {
                            Some(JsonValue::Text(s)) => s.clone(),
                            _ => String::new(),
                        };
                        self.json = text;
                        self.hidden = false;
                        true
                    },
                    _ => false,
                }
            },
        }
    }
}

} // verus!

//! The collection of schematics of a package.

use crate::json::{lemma_lookup_extends, lookup, parse_json, json_document, JsonValue, JsonView};
use crate::schema_parsing::{bool_or, read_text, text_or};
use crate::settings_utils::{SettingsData, SettingsDataView};
use crate::text::{lemma_empty_literal, position, same_text, texts, first_index};
use vstd::prelude::*;

verus! {

/// The schematics of a package, as its collection file lists them, and the
/// settings that say which of them are shown.
#[derive(Debug)]
pub struct Collection {
    pub data: JsonValue,
    pub settings: SettingsData,
}

/// What a collection says of one schematic.
#[derive(Debug, PartialEq)]
pub struct SchematicData {
    pub schema: String,
    pub description: String,
    pub private: bool,
    pub hidden: bool,
}

pub struct SchematicDataView {
    pub schema: Seq<char>,
    pub description: Seq<char>,
    pub private: bool,
    pub hidden: bool,
}

impl View for SchematicData {
    type V = SchematicDataView;

    open spec fn view(&self) -> SchematicDataView {
        SchematicDataView {
            schema: self.schema@,
            description: self.description@,
            private: self.private,
            hidden: self.hidden,
        }
    }
}

impl SchematicDataView {
    /// What is known of a schematic that the collection does not list.
    pub open spec fn initial() -> SchematicDataView {
        SchematicDataView {
            schema: Seq::empty(),
            description: Seq::empty(),
            private: false,
            hidden: false,
        }
    }

    /// What an entry of the collection says.
    pub open spec fn of(entry: JsonView) -> SchematicDataView {
        SchematicDataView {
            schema: text_or(entry, "schema"@, Seq::empty()),
            description: text_or(entry, "description"@, Seq::empty()),
            hidden: bool_or(entry, "hidden"@, false),
            private: bool_or(entry, "private"@, false),
        }
    }
}

impl Default for SchematicData {
    fn default() -> (r: Self)
        ensures
            r@ == SchematicDataView::initial(),
    {
        SchematicData {
            schema: String::new(),
            description: String::new(),
            private: false,
            hidden: false,
        }
    }
}

/// Whether an entry is marked with `flag`.
pub open spec fn is_marked(entry: JsonView, flag: Seq<char>) -> bool {
    entry.member(flag) == Some(JsonView::Bool(true))
}

/// Whether an entry is shown under the settings.
pub open spec fn is_shown(entry: JsonView, settings: SettingsDataView) -> bool {
    (settings.show_private || !is_marked(entry, "private"@)) && (settings.show_hidden
        || !is_marked(entry, "hidden"@))
}

/// The entries that are shown, in their order.
pub open spec fn shown(entries: Seq<(Seq<char>, JsonView)>, settings: SettingsDataView) -> Seq<
    (Seq<char>, JsonView),
>
    decreases entries.len(),
{
    if entries.len() == 0 {
        Seq::empty()
    } else {
        let head = shown(entries.drop_last(), settings);
        if is_shown(entries.last().1, settings) {
            head.push(entries.last())
        } else {
            head
        }
    }
}

/// The names of entries.
pub open spec fn names(entries: Seq<(Seq<char>, JsonView)>) -> Seq<Seq<char>> {
    Seq::new(entries.len(), |i: int| entries[i].0)
}

/// The entries of a collection: the members of its `schematics`.
pub open spec fn entries_of(data: JsonView) -> Seq<(Seq<char>, JsonView)> {
    match data.member("schematics"@) {
        Some(JsonView::Object(members)) => members,
        _ => Seq::empty(),
    }
}

/// Whether an entry is marked with `flag`.
pub fn entry_is_marked(entry: &JsonValue, flag: &str) -> (r: bool)
    ensures
        r == is_marked(entry@, flag@),
{
    match entry.get(flag) {
        Some(JsonValue::Bool(b)) => *b,
        _ => false,
    }
}

impl Collection {
    /// A collection that lists nothing yet.
    pub fn new(settings: SettingsData) -> (r: Self)
        ensures
            r.settings == settings,
            r.data@ == JsonView::Object(Seq::empty()),
    {
        let r = Collection { settings, data: JsonValue::Object(Vec::new()) };
        assert(r.data@->Object_0 =~= Seq::empty());
        r
    }

    /// The list that `text` holds; `None` where it is not a JSON document.
    pub fn read(text: &str) -> (r: Option<JsonValue>)
        ensures
            match json_document(text@) {
                Some(v) => r is Some && r->0@ == v,
                None => r is None,
            },
    {
        parse_json(text)
    }

    /// Takes the list that the collection file holds.
    pub fn init(&mut self, data: JsonValue)
        ensures
            final(self).data == data,
            final(self).settings == old(self).settings,
    {
        self.data = data;
    }

    /// Where the schema of the collection file lies; empty where the file
    /// does not say.
    pub fn schema_location(&self) -> (r: String)
        ensures
            r@ == match self.data@.member("$schema"@) {
                Some(JsonView::Text(s)) => s,
                _ => Seq::empty(),
            },
    {
        match self.data.get("$schema") {
            Some(JsonValue::Text(s)) => s.clone(),
            _ => String::new(),
        }
    }

    /// The entries that are shown: all but the private ones, unless the
    /// settings show them, and all but the hidden ones, unless the settings
    /// show them.
    pub fn list(&self) -> (r: Vec<(&String, &JsonValue)>)
        ensures
            r@.len() == shown(entries_of(self.data@), self.settings@).len(),
            forall|i: int|
                0 <= i < r@.len() ==> (r@[i].0@, r@[i].1@) == shown(
                    entries_of(self.data@),
                    self.settings@,
                )[i],
    {
        let mut out: Vec<(&String, &JsonValue)> = Vec::new();
        match self.data.get("schematics") {
            Some(JsonValue::Object(members)) => {
                let ghost entries = entries_of(self.data@);
                assert(JsonValue::Object(*members)@->Object_0 == entries);
                let mut i: usize = 0;
                while i < members.len()
                    invariant
                        i <= members.len(),
                        entries.len() == members@.len(),
                        forall|j: int|
                            0 <= j < members@.len() ==> entries[j] == (
                                members@[j].0@,
                                members@[j].1@,
                            ),
                        out@.len() == shown(entries.take(i as int), self.settings@).len(),
                        forall|j: int|
                            0 <= j < out@.len() ==> (out@[j].0@, out@[j].1@) == shown(
                                entries.take(i as int),
                                self.settings@,
                            )[j],
                    decreases members.len() - i,
                {
                    proof {
                        assert(entries.take(i + 1).drop_last() == entries.take(i as int));
                        assert(entries.take(i + 1).last() == entries[i as int]);
                    }
                    let entry = &members[i].1;
                    let keep = (self.settings.show_private || !entry_is_marked(entry, "private"))
                        && (self.settings.show_hidden || !entry_is_marked(entry, "hidden"));
                    if keep {
                        out.push((&members[i].0, entry));
                    }
                    i += 1;
                }
                proof {
                    assert(entries.take(members.len() as int) == entries);
                }
                out
            },
            _ => out,
        }
    }

    /// What the collection says of the schematic `name`, if it is shown;
    /// otherwise what is known of a schematic that is not listed.
    pub fn get_schematic(&self, name: &str) -> (r: SchematicData)
        ensures
            r@ == match lookup(shown(entries_of(self.data@), self.settings@), name@) {
                Some(entry) => SchematicDataView::of(entry),
                None => SchematicDataView::initial(),
            },
    {
        proof {
            lemma_empty_literal();
        }
        let list = self.list();
        let ghost all = shown(entries_of(self.data@), self.settings@);
        let mut i: usize = 0;
        while i < list.len()
            invariant
                i <= list.len(),
                all == shown(entries_of(self.data@), self.settings@),
                list@.len() == all.len(),
                forall|j: int| 0 <= j < list@.len() ==> (list@[j].0@, list@[j].1@) == all[j],
                lookup(all.take(i as int), name@) is None,
            decreases list.len() - i,
        {
            proof {
                assert(all.take(i + 1).drop_last() == all.take(i as int));
                assert(all.take(i + 1).last() == all[i as int]);
            }
            if same_text(list[i].0.as_str(), name) {
                proof {
                    lemma_lookup_extends(all, name@, i + 1);
                    lemma_empty_literal();
                }
                let data = list[i].1;
                return SchematicData {
                    schema: read_text(data, "schema", ""),
                    description: read_text(data, "description", ""),
                    hidden: crate::schema_parsing::read_bool(data, "hidden", false),
                    private: crate::schema_parsing::read_bool(data, "private", false),
                };
            }
            i += 1;
        }
        proof {
            assert(all.take(list.len() as int) == all);
        }
        SchematicData::default()
    }

    /// The names of the schematics that are shown, in the order of the file.
    pub fn list_schematic_names(&self) -> (r: Vec<String>)
        ensures
            texts(r@) == names(shown(entries_of(self.data@), self.settings@)),
    {
        let list = self.list();
        let ghost all = shown(entries_of(self.data@), self.settings@);
        let mut result: Vec<String> = Vec::new();
        let mut i: usize = 0;
        while i < list.len()
            invariant
                i <= list.len(),
                list@.len() == all.len(),
                forall|j: int| 0 <= j < list@.len() ==> (list@[j].0@, list@[j].1@) == all[j],
                result@.len() == i,
                forall|j: int| 0 <= j < i ==> result@[j]@ == all[j].0,
            decreases list.len() - i,
        {
            result.push(list[i].0.clone());
            i += 1;
        }
        assert(texts(result@) =~= names(all));
        result
    }

    /// Whether a schematic called `schematic` is shown.
    pub fn has_schematic(&self, schematic: &str) -> (r: bool)
        ensures
            r == first_index(names(shown(entries_of(self.data@), self.settings@)), schematic@)
                is Some,
    {
        let all = self.list_schematic_names();
        position(&all, schematic).is_some()
    }
}

} // verus!

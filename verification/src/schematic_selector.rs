//! Choosing a schematic from the list of a collection.

use crate::schematics::{entries_of, names, shown, Collection};
use crate::settings_utils::SettingsData;
use crate::text::{starts_with, texts};
use vstd::prelude::*;

verus! {

#[derive(Debug)]
pub enum SchematicSelectorInput {
    Show(SettingsData),
    FilterChange,
    Selected(u32),
}

#[derive(Debug)]
pub enum SchematicSelectorOutput {
    Selected(String),
    Load,
}

pub struct ComponentInit {}

/// The list of schematics.
#[derive(Debug)]
pub struct SchematicSelectorModel {
    pub hidden: bool,
    pub search: String,
    pub schematics: Vec<String>,
    pub settings: Option<SettingsData>,
}

impl SchematicSelectorModel {
    /// A list with a single empty line.
    pub fn new(hidden: bool) -> (r: Self)
        ensures
            r.hidden == hidden,
            r.settings is None,
            texts(r.schematics@) == seq![Seq::<char>::empty()],
    {
        let mut schematics: Vec<String> = Vec::new();
        schematics.push(String::new());
        assert(texts(schematics@) =~= seq![Seq::<char>::empty()]);
        SchematicSelectorModel { hidden, schematics, search: String::new(), settings: None }
    }

    /// The names to list: those that the collection shows under the
    /// settings, or a single empty line where no settings are stored yet or
    /// the collection file holds no JSON.
    pub fn load_options(settings: &SettingsData, stored: bool, collection: &str) -> (r: Vec<String>)
        ensures
            texts(r@) == match crate::json::json_document(collection@) {
                Some(doc) => if stored {
                    names(shown(entries_of(doc), settings@))
                } else {
                    seq![Seq::<char>::empty()]
                },
                None => seq![Seq::<char>::empty()],
            },
    {
        if stored {
            match Collection::read(collection) {
                Some(data) => {
                    let mut list = Collection::new(settings.duplicate());
                    list.init(data);
                    return list.list_schematic_names();
                },
                None => {},
            }
        }
        let mut none: Vec<String> = Vec::new();
        none.push(String::new());
        assert(texts(none@) =~= seq![Seq::<char>::empty()]);
        none
    }

    /// Whether a line passes the filter that the user typed.
    pub fn passes_filter(&self, name: &str) -> (r: bool)
        ensures
            r == self.search@.is_prefix_of(name@),
    {
        starts_with(name, self.search.as_str())
    }

    /// Takes a message. `stored` says whether settings are stored, and
    /// `collection` is what the collection file of the settings holds. A
    /// line that is chosen is handed back.
    pub fn update(
        &mut self,
        message: SchematicSelectorInput,
        stored: bool,
        collection: &str,
    ) -> (r: Option<SchematicSelectorOutput>)
        ensures
            match message {
                SchematicSelectorInput::Selected(n) => {
                    &&& final(self).hidden == old(self).hidden
                    &&& final(self).schematics == old(self).schematics
                    &&& if n < old(self).schematics@.len() {
                        &&& r matches Some(SchematicSelectorOutput::Selected(name))
                        &&& name@ == old(self).schematics@[n as int]@
                    } else {
                        r is None
                    }
                },
                SchematicSelectorInput::FilterChange => {
                    &&& r is None
                    &&& final(self).hidden == old(self).hidden
                    &&& final(self).schematics == old(self).schematics
                },
                SchematicSelectorInput::Show(settings) => {
                    &&& r is None
                    &&& !final(self).hidden
                    &&& final(self).settings is Some
                    &&& final(self).settings->0@ == settings@
                    &&& texts(final(self).schematics@) == match crate::json::json_document(
                        collection@,
                    ) {
                        Some(doc) => if stored {
                            names(shown(entries_of(doc), settings@))
                        } else {
                            seq![Seq::<char>::empty()]
                        },
                        None => seq![Seq::<char>::empty()],
                    }
                },
            },
    {
        match message {
            SchematicSelectorInput::Selected(n) => {
                let at = n as usize;
                if at < self.schematics.len() {
                    Some(SchematicSelectorOutput::Selected(self.schematics[at].clone()))
                } else {
                    None
                }
            },
            SchematicSelectorInput::FilterChange => None,
            SchematicSelectorInput::Show(settings) => {
                self.schematics = SchematicSelectorModel::load_options(
                    &settings,
                    stored,
                    collection,
                );
                self.settings = Some(settings.duplicate());
                self.hidden = false;
                None
            },
        }
    }
}

} // verus!

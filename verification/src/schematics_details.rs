//! The four pages that show a schematic: its package, its schema, its form
//! and its execution.

use crate::command_builder::Param;
use crate::json::json_document;
use crate::package_info::PartialPackageJsonData;
use crate::schematic_executor::SchematicExecutorInputParams;
use crate::schematics::{entries_of, shown, Collection, SchematicDataView};
use crate::settings_utils::SettingsData;
use vstd::prelude::*;

verus! {

#[derive(Debug)]
pub enum SchematicsDetailsInput {
    Show(Option<SettingsData>),
    ShowSchematic(String),
    ShowExecutor(Vec<Param>),
    SetPackage(Box<PartialPackageJsonData>),
    BacktToUi,
    CwdChanged(String),
}

#[derive(Debug)]
pub enum SchematicsDetailsOutput {
    LoadPackageInfo(String),
}

pub struct SchematicsDetailsInit {}

/// What the caller of the pages has to do after a message.
#[derive(Debug)]
pub enum DetailsAction {
    /// Show the package description that lies at `path`.
    ShowPackage { path: String },
    /// Show the schema that lies at `schema`, a path beside the collection
    /// file `collection`, and the form of the schematic.
    ShowSchematic { collection: String, schema: String, schematic: String, package_name: String },
    /// Tell the form that the working directory is `path`.
    CwdChanged { path: String },
    /// Open the executor.
    ShowExecutor(SchematicExecutorInputParams),
}

/// The pages.
#[derive(Debug)]
pub struct SchematicsDetailsModel {
    pub hidden: bool,
    pub tab: u32,
    pub settings: Option<SettingsData>,
    pub package: Option<PartialPackageJsonData>,
    pub schematic: String,
}

/// The path of the schema of a schematic, as the collection gives it.
pub open spec fn schema_of(
    collection: Seq<char>,
    settings: crate::settings_utils::SettingsDataView,
    name: Seq<char>,
) -> Seq<char> {
    match json_document(collection) {
        Some(doc) => match crate::json::lookup(shown(entries_of(doc), settings), name) {
            Some(entry) => SchematicDataView::of(entry).schema,
            None => Seq::empty(),
        },
        None => Seq::empty(),
    }
}

impl SchematicsDetailsModel {
    /// Pages that are not shown, the first of them in front.
    pub fn new() -> (r: Self)
        ensures
            r.hidden,
            r.tab == 0,
            r.settings is None,
            r.package is None,
    {
        SchematicsDetailsModel {
            hidden: true,
            settings: None,
            package: None,
            tab: 0,
            schematic: String::new(),
        }
    }

    pub fn show_package(&mut self)
        ensures
            *final(self) == (SchematicsDetailsModel { tab: 0, ..*old(self) }),
    {
        self.tab = 0;
    }

    pub fn show_schema(&mut self)
        ensures
            *final(self) == (SchematicsDetailsModel { tab: 1, ..*old(self) }),
    {
        self.tab = 1;
    }

    pub fn show_ui(&mut self)
        ensures
            *final(self) == (SchematicsDetailsModel { tab: 2, ..*old(self) }),
    {
        self.tab = 2;
    }

    pub fn show_shell(&mut self)
        ensures
            *final(self) == (SchematicsDetailsModel { tab: 3, ..*old(self) }),
    {
        self.tab = 3;
    }

    /// Takes a message. `collection` is what the collection file of the
    /// settings holds. A schematic can be shown, and the executor opened,
    /// only once the settings are known; without them the message changes
    /// nothing.
    pub fn update(&mut self, message: SchematicsDetailsInput, collection: &str) -> (r: Option<
        DetailsAction,
    >)
        ensures
            match message {
                SchematicsDetailsInput::ShowSchematic(name) => match old(self).settings {
                    Some(settings) => {
                        &&& final(self).tab == 2
                        &&& final(self).schematic@ == name@
                        &&& final(self).hidden == old(self).hidden
                        &&& r matches Some(
                            DetailsAction::ShowSchematic {
                                collection: c,
                                schema,
                                schematic,
                                package_name,
                            },
                        )
                        &&& c@ == settings.schematics_collection@
                        &&& schema@ == schema_of(collection@, settings@, name@)
                        &&& schematic@ == name@
                        &&& package_name@ == match old(self).package {
                            Some(p) => p.name@,
                            None => Seq::empty(),
                        }
                    },
                    None => r is None && *final(self) == *old(self),
                },
                SchematicsDetailsInput::Show(data) => match data {
                    Some(settings) => {
                        &&& !final(self).hidden
                        &&& final(self).settings is Some
                        &&& final(self).settings->0@ == settings@
                        &&& final(self).tab == old(self).tab
                        &&& r matches Some(DetailsAction::ShowPackage { path })
                        &&& path@ == settings.schematics_package@
                    },
                    None => r is None && *final(self) == *old(self),
                },
                SchematicsDetailsInput::BacktToUi => {
                    &&& r is None
                    &&& *final(self) == (SchematicsDetailsModel { tab: 2, ..*old(self) })
                },
                SchematicsDetailsInput::CwdChanged(path) => {
                    &&& r matches Some(DetailsAction::CwdChanged { path: p })
                    &&& p == path
                    &&& *final(self) == *old(self)
                },
                SchematicsDetailsInput::SetPackage(data) => {
                    &&& r is None
                    &&& final(self).package == Some(*data)
                    &&& final(self).tab == old(self).tab
                    &&& final(self).settings == old(self).settings
                },
                SchematicsDetailsInput::ShowExecutor(params) => match old(self).settings {
                    Some(settings) => {
                        &&& final(self).tab == 3
                        &&& r matches Some(DetailsAction::ShowExecutor(p))
                        &&& p.params == params
                        &&& p.schematic@ == old(self).schematic@
                        &&& p.settings@ == settings@
                    },
                    None => r is None && *final(self) == *old(self),
                },
            },
    {
        match message {
            SchematicsDetailsInput::ShowSchematic(schematic_name) => {
                let settings = match &self.settings {
                    Some(s) => s,
                    None => {
                        return None;
                    },
                };
                let schema = match Collection::read(collection) {
                    Some(data) => {
                        let mut list = Collection::new(settings.duplicate());
                        list.init(data);
                        list.get_schematic(schematic_name.as_str()).schema
                    },
                    None => String::new(),
                };
                let action = DetailsAction::ShowSchematic {
                    collection: settings.schematics_collection.clone(),
                    schema,
                    schematic: schematic_name.clone(),
                    package_name: match &self.package {
                        Some(p) => p.name.clone(),
                        None => String::new(),
                    },
                };
                self.show_ui();
                self.schematic = schematic_name;
                Some(action)
            },
            SchematicsDetailsInput::Show(data) => {
                match data {
                    Some(settings) => {
                        let path = settings.schematics_package.clone();
                        self.settings = Some(settings);
                        self.hidden = false;
                        Some(DetailsAction::ShowPackage { path })
                    },
                    None => None,
                }
            },
            SchematicsDetailsInput::BacktToUi => {
                self.show_ui();
                None
            },
            SchematicsDetailsInput::CwdChanged(path) => Some(DetailsAction::CwdChanged { path }),
            SchematicsDetailsInput::SetPackage(data) => {
                self.package = Some(*data);
                None
            },
            SchematicsDetailsInput::ShowExecutor(params) => {
                let settings = match &self.settings {
                    Some(s) => s.duplicate(),
                    None => {
                        return None;
                    },
                };
                let action = DetailsAction::ShowExecutor(
                    SchematicExecutorInputParams {
                        params,
                        schematic: self.schematic.clone(),
                        settings,
                    },
                );
                self.show_shell();
                Some(action)
            },
        }
    }
}

} // verus!

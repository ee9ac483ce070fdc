//! The dialog in which the user sets the application up.

use crate::settings_utils::{FieldFault, PathFacts, Runner, SettingsData, SettingsUtils};
use crate::traits::{Banner, Validator};
use vstd::prelude::*;

verus! {

#[derive(Debug)]
pub enum SettingsInput {
    Show,
    Apply,
    Cancel,
    NodeSelect(String),
    CollectionSelect(String),
    PackageSelect(String),
    RunnerSelect(String),
    ToggleCheckbox(bool, String),
}

#[derive(Debug)]
pub enum SettingsOutput {
    Close,
    SettingsLoaded(SettingsData),
}

/// What the file system says of the four paths of the settings.
#[derive(Debug, Clone, Copy, PartialEq, Eq, Structural)]
pub struct SettingsFacts {
    pub node: PathFacts,
    pub runner: PathFacts,
    pub collection: PathFacts,
    pub package: PathFacts,
}

/// The settings dialog.
#[derive(Debug)]
pub struct SettingsModel {
    pub hidden: bool,
    pub node: String,
    pub schematic_runner: String,
    pub collection: String,
    pub package: String,
    pub show_private: bool,
    pub show_hidden: bool,
    pub runner: Runner,
    pub banner: Banner,
}

/// The first fault among the four paths, in the order node, runner,
/// collection, package, and the name of the field it is in.
pub open spec fn first_fault(
    node: Seq<char>,
    runner: Seq<char>,
    collection: Seq<char>,
    package: Seq<char>,
    facts: SettingsFacts,
) -> Option<(Seq<char>, FieldFault)> {
    match SettingsUtils::fault(node, facts.node, true) {
        Some(f) => Some(("node executable"@, f)),
        None => match SettingsUtils::fault(runner, facts.runner, true) {
            Some(f) => Some(("schematics runner"@, f)),
            None => match SettingsUtils::fault(collection, facts.collection, false) {
                Some(f) => Some(("schematics collection"@, f)),
                None => match SettingsUtils::fault(package, facts.package, false) {
                    Some(f) => Some(("schematics package"@, f)),
                    None => None,
                },
            },
        },
    }
}

impl SettingsModel {
    /// The first fault among the paths of the dialog.
    pub open spec fn fault(self, facts: SettingsFacts) -> Option<(Seq<char>, FieldFault)> {
        first_fault(self.node@, self.schematic_runner@, self.collection@, self.package@, facts)
    }

    /// The settings that the dialog holds.
    pub open spec fn entered(self) -> crate::settings_utils::SettingsDataView {
        crate::settings_utils::SettingsDataView {
            runner: Runner::at(self.schematic_runner@),
            node_binary: self.node@,
            runner_location: self.schematic_runner@,
            schematics_collection: self.collection@,
            schematics_package: self.package@,
            show_private: self.show_private,
            show_hidden: self.show_hidden,
        }
    }

    /// A dialog with nothing entered.
    pub fn new(hidden: bool) -> (r: Self)
        ensures
            r.hidden == hidden,
            !r.show_private,
            !r.show_hidden,
            !r.banner.error,
    {
        SettingsModel {
            hidden,
            node: String::new(),
            schematic_runner: String::new(),
            collection: String::new(),
            package: String::new(),
            show_private: false,
            show_hidden: false,
            runner: Runner::Google,
            banner: Banner::new(),
        }
    }

    /// Checks the four paths in turn and tells the user of the first fault.
    pub fn validate(&mut self, facts: SettingsFacts) -> (r: bool)
        ensures
            r == (old(self).fault(facts) is None),
            final(self).fault(facts) == old(self).fault(facts),
            final(self).entered() == old(self).entered(),
            final(self).hidden == old(self).hidden,
            match old(self).fault(facts) {
                Some((name, fault)) => {
                    &&& final(self).banner.error
                    &&& final(self).banner.message@ == "Error: "@ + SettingsUtils::fault_text(
                        name,
                        fault,
                    )
                },
                None => final(self).banner == old(self).banner,
            },
    {
        let found = match SettingsUtils::check_field(self.node.as_str(), facts.node, true) {
            Some(f) => Some(("node executable", f)),
            None => match SettingsUtils::check_field(
                self.schematic_runner.as_str(),
                facts.runner,
                true,
            ) {
                Some(f) => Some(("schematics runner", f)),
                None => match SettingsUtils::check_field(
                    self.collection.as_str(),
                    facts.collection,
                    false,
                ) {
                    Some(f) => Some(("schematics collection", f)),
                    None => match SettingsUtils::check_field(
                        self.package.as_str(),
                        facts.package,
                        false,
                    ) {
                        Some(f) => Some(("schematics package", f)),
                        None => None,
                    },
                },
            },
        };
        match found {
            Some((name, fault)) => {
                let text = SettingsUtils::fault_message(name, fault);
                self.banner.print_error(text.as_str());
                false
            },
            None => true,
        }
    }

    /// Takes a message. `stored` is the settings that are stored, if any, and
    /// `facts` what the file system says of the paths in the dialog. `Apply`
    /// hands back the settings to store where the paths will do.
    pub fn update(&mut self, message: SettingsInput, stored: Option<SettingsData>, facts: SettingsFacts) -> (r:
        Option<SettingsOutput>)
        ensures
            match message {
                SettingsInput::Show => {
                    &&& r is None
                    &&& *final(self) == match stored {
                        Some(data) => SettingsModel {
                            hidden: false,
                            node: data.node_binary,
                            package: data.schematics_package,
                            collection: data.schematics_collection,
                            schematic_runner: data.runner_location,
                            show_private: data.show_private,
                            runner: data.runner,
                            ..*old(self)
                        },
                        None => SettingsModel { hidden: false, ..*old(self) },
                    }
                },
                SettingsInput::NodeSelect(file) => {
                    &&& r is None
                    &&& *final(self) == (SettingsModel { node: file, ..*old(self) })
                },
                SettingsInput::CollectionSelect(file) => {
                    &&& r is None
                    &&& *final(self) == (SettingsModel { collection: file, ..*old(self) })
                },
                SettingsInput::RunnerSelect(file) => {
                    &&& r is None
                    &&& *final(self) == (SettingsModel { schematic_runner: file, ..*old(self) })
                },
                SettingsInput::PackageSelect(file) => {
                    &&& r is None
                    &&& *final(self) == (SettingsModel { package: file, ..*old(self) })
                },
                SettingsInput::ToggleCheckbox(checked, field) => {
                    &&& r is None
                    &&& *final(self) == if field@ == "show_private"@ {
                        SettingsModel { show_private: checked, ..*old(self) }
                    } else if field@ == "show_hidden"@ {
                        SettingsModel { show_hidden: checked, ..*old(self) }
                    } else {
                        *old(self)
                    }
                },
                SettingsInput::Apply => match old(self).fault(facts) {
                    Some(_) => {
                        &&& r is None
                        &&& final(self).banner.error
                        &&& final(self).hidden == old(self).hidden
                    },
                    None => {
                        &&& r matches Some(SettingsOutput::SettingsLoaded(data))
                        &&& data@ == old(self).entered()
                        &&& final(self).hidden
                        &&& !final(self).banner.error
                        &&& final(self).entered() == old(self).entered()
                    },
                },
                SettingsInput::Cancel => {
                    &&& r is None
                    &&& !final(self).banner.error
                    &&& final(self).hidden == (old(self).hidden || stored is Some)
                    &&& final(self).entered() == old(self).entered()
                },
            },
    {
        match message {
            SettingsInput::Show => {
                match stored {
                    Some(data) => {
                        self.node = data.node_binary;
                        self.package = data.schematics_package;
                        self.collection = data.schematics_collection;
                        self.schematic_runner = data.runner_location;
                        self.show_private = data.show_private;
                        self.runner = data.runner;
                    },
                    None => {},
                }
                self.hidden = false;
                None
            },
            SettingsInput::NodeSelect(file) => {
                self.node = file;
                None
            },
            SettingsInput::CollectionSelect(file) => {
                self.collection = file;
                None
            },
            SettingsInput::RunnerSelect(file) => {
                self.schematic_runner = file;
                None
            },
            SettingsInput::PackageSelect(file) => {
                self.package = file;
                None
            },
            SettingsInput::ToggleCheckbox(checked, field) => {
                if crate::text::same_text(field.as_str(), "show_private") {
                    self.show_private = checked;
                } else if crate::text::same_text(field.as_str(), "show_hidden") {
                    self.show_hidden = checked;
                }
                None
            },
            SettingsInput::Apply => {
                if !self.validate(facts) {
                    return None;
                }
                self.banner.clear_error();
                let data = SettingsData {
                    node_binary: self.node.clone(),
                    runner_location: self.schematic_runner.clone(),
                    schematics_collection: self.collection.clone(),
                    schematics_package: self.package.clone(),
                    show_private: self.show_private,
                    show_hidden: self.show_hidden,
                    runner: Runner::of_location(self.schematic_runner.as_str()),
                };
                self.hidden = true;
                Some(SettingsOutput::SettingsLoaded(data))
            },
            SettingsInput::Cancel => {
                self.banner.clear_error();
                if stored.is_some() {
                    self.hidden = true;
                }
                None
            },
        }
    }
}

} // verus!

//! The settings of the application.
//!
//! Where the settings are stored is the business of the caller; this module
//! holds what they are and the rules that a new set of settings must meet.

use crate::text::{concat3, ends_with};
use vstd::prelude::*;

verus! {

/// The program that runs the schematics.
#[derive(Debug, Clone, Copy, PartialEq, Eq, Structural)]
pub enum Runner {
    Google,
    MBH,
    Custom,
}

impl Runner {
    /// The runner that a path to a program stands for: one that ends in
    /// `/schematics`, one that ends in `/fnd`, or any other.
    pub open spec fn at(location: Seq<char>) -> Runner {
        if "/schematics"@.is_suffix_of(location) {
            Runner::Google
        } else if "/fnd"@.is_suffix_of(location) {
            Runner::MBH
        } else {
            Runner::Custom
        }
    }

    /// The runner that a path to a program stands for.
    pub fn of_location(location: &str) -> (r: Runner)
        ensures
            r == Runner::at(location@),
    {
        if ends_with(location, "/schematics") {
            Runner::Google
        } else if ends_with(location, "/fnd") {
            Runner::MBH
        } else {
            Runner::Custom
        }
    }

    /// Whether the runner knows the options for a dry run.
    pub fn has_dry_run(&self) -> (r: bool)
        ensures
            r == (*self == Runner::Google || *self == Runner::MBH),
    {
        match self {
            Runner::Google | Runner::MBH => true,
            Runner::Custom => false,
        }
    }
}

/// What the user has set up.
#[derive(Debug, Clone, PartialEq)]
pub struct SettingsData {
    pub runner: Runner,
    pub node_binary: String,
    pub runner_location: String,
    pub schematics_collection: String,
    pub schematics_package: String,
    pub show_private: bool,
    pub show_hidden: bool,
}

pub struct SettingsDataView {
    pub runner: Runner,
    pub node_binary: Seq<char>,
    pub runner_location: Seq<char>,
    pub schematics_collection: Seq<char>,
    pub schematics_package: Seq<char>,
    pub show_private: bool,
    pub show_hidden: bool,
}

impl View for SettingsData {
    type V = SettingsDataView;

    open spec fn view(&self) -> SettingsDataView {
        SettingsDataView {
            runner: self.runner,
            node_binary: self.node_binary@,
            runner_location: self.runner_location@,
            schematics_collection: self.schematics_collection@,
            schematics_package: self.schematics_package@,
            show_private: self.show_private,
            show_hidden: self.show_hidden,
        }
    }
}

impl SettingsDataView {
    /// Nothing set up, nothing shown that is private or hidden.
    pub open spec fn initial() -> SettingsDataView {
        SettingsDataView {
            runner: Runner::Google,
            node_binary: Seq::empty(),
            runner_location: Seq::empty(),
            schematics_collection: Seq::empty(),
            schematics_package: Seq::empty(),
            show_private: false,
            show_hidden: false,
        }
    }
}

impl Default for SettingsData {
    fn default() -> (r: Self)
        ensures
            r@ == SettingsDataView::initial(),
    {
        SettingsData {
            node_binary: String::new(),
            runner_location: String::new(),
            schematics_collection: String::new(),
            schematics_package: String::new(),
            show_private: false,
            show_hidden: false,
            runner: Runner::Google,
        }
    }
}

impl SettingsData {
    /// A copy with the same content.
    pub fn duplicate(&self) -> (r: SettingsData)
        ensures
            r@ == self@,
    {
        SettingsData {
            runner: self.runner,
            node_binary: self.node_binary.clone(),
            runner_location: self.runner_location.clone(),
            schematics_collection: self.schematics_collection.clone(),
            schematics_package: self.schematics_package.clone(),
            show_private: self.show_private,
            show_hidden: self.show_hidden,
        }
    }
}

/// What the file system says of a path.
#[derive(Debug, Clone, Copy, PartialEq, Eq, Structural)]
pub struct PathFacts {
    pub exists: bool,
    pub is_file: bool,
    pub is_dir: bool,
    pub is_executable: bool,
}

/// What is wrong with a path that the settings name.
#[derive(Debug, Clone, Copy, PartialEq, Eq, Structural)]
pub enum FieldFault {
    Missing,
    NotAFile,
    NotExecutable,
}

/// Reads and writes nothing itself; names the rules for settings.
pub struct SettingsUtils;

impl Default for SettingsUtils {
    fn default() -> Self {
        SettingsUtils {  }
    }
}

impl SettingsUtils {
    pub fn new() -> Self {
        SettingsUtils {  }
    }

    /// What is wrong with the path `value`, if anything: it must be given,
    /// must be a file that exists, and, where it is a program, must be
    /// executable.
    pub open spec fn fault(value: Seq<char>, facts: PathFacts, program: bool) -> Option<FieldFault> {
        if value.len() == 0 {
            Some(FieldFault::Missing)
        } else if !facts.exists || !facts.is_file {
            Some(FieldFault::NotAFile)
        } else if program && !facts.is_executable {
            Some(FieldFault::NotExecutable)
        } else {
            None
        }
    }

    /// Checks one path of the settings against what the file system says of
    /// it.
    pub fn check_field(value: &str, facts: PathFacts, program: bool) -> (r: Option<FieldFault>)
        ensures
            r == SettingsUtils::fault(value@, facts, program),
    {
        if value.unicode_len() == 0 {
            Some(FieldFault::Missing)
        } else if !facts.exists || !facts.is_file {
            Some(FieldFault::NotAFile)
        } else if program && !facts.is_executable {
            Some(FieldFault::NotExecutable)
        } else {
            None
        }
    }

    /// What the user is told of a fault in the field called `name`.
    pub open spec fn fault_text(name: Seq<char>, fault: FieldFault) -> Seq<char> {
        match fault {
            FieldFault::Missing => "The '"@ + name + "' field is mandatory!"@,
            FieldFault::NotAFile => "The '"@ + name + "' doesn't exist or it's not a file!"@,
            FieldFault::NotExecutable => "The '"@ + name + "' is not executable file!"@,
        }
    }

    /// What the user is told of a fault in the field called `name`.
    pub fn fault_message(name: &str, fault: FieldFault) -> (r: String)
        ensures
            r@ == SettingsUtils::fault_text(name@, fault),
    {
        match fault {
            FieldFault::Missing => concat3("The '", name, "' field is mandatory!"),
            FieldFault::NotAFile => concat3("The '", name, "' doesn't exist or it's not a file!"),
            FieldFault::NotExecutable => concat3("The '", name, "' is not executable file!"),
        }
    }
}

} // verus!
